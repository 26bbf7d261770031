use vstd::prelude::*;

use crate::counter::Message;
use crate::input::keyboard::{
    keycode_of, keysym_of, keysym_to_keycode, program_modifiers, to_program_modifiers, KeyCode,
    KeyboardEvent,
    SeatModifiers,
};

verus! {

/// The width the surface asks the compositor for.
pub const SURFACE_WIDTH: u32 = 480;

/// The height the surface asks the compositor for.
pub const SURFACE_HEIGHT: u32 = 480;

/// How often, in seconds, the timer sends the program an increment.
pub const TIMER_INTERVAL_SECS: u64 = 2;

/// An input capability that a seat announces or withdraws.
#[derive(Debug, Clone, Copy, PartialEq, Eq, Structural)]
pub enum Capability {
    Keyboard,
    Pointer,
    Touch,
}

/// An input device of the seat that the surface holds.
#[derive(Debug, Clone, Copy, PartialEq, Eq, Structural)]
pub enum SeatDevice {
    Keyboard,
    Pointer,
}

/// The input state of the layer surface that its decisions depend on.
#[derive(Debug, Clone, Copy, PartialEq, Eq, Structural)]
pub struct SurfaceState {
    /// Whether the surface has content that has not been drawn yet.
    pub dirty: bool,
    /// Whether the surface holds the seat's keyboard.
    pub has_keyboard: bool,
    /// Whether the keyboard's focus is on this surface.
    pub keyboard_focus: bool,
    /// The modifiers the compositor last reported.
    pub keyboard_modifiers: SeatModifiers,
    /// Whether the surface holds the seat's pointer.
    pub has_pointer: bool,
    /// Whether the first configure (and with it the first draw) has happened.
    pub initial_configure_sent: bool,
}

impl SurfaceState {
    /// The state of a freshly created surface.
    pub open spec fn initial() -> SurfaceState {
        SurfaceState {
            dirty: true,
            has_keyboard: false,
            keyboard_focus: false,
            keyboard_modifiers: SeatModifiers {
                ctrl: false,
                alt: false,
                shift: false,
                caps_lock: false,
                logo: false,
                num_lock: false,
            },
            has_pointer: false,
            initial_configure_sent: false,
        }
    }

    /// Whether a configure draws the surface: only the first one does.
    pub open spec fn configure_draws(self) -> bool {
        !self.initial_configure_sent
    }

    /// The state after a configure.
    pub open spec fn after_configure(self) -> SurfaceState {
        SurfaceState { initial_configure_sent: true, ..self }
    }

    /// The state after the keyboard entered a surface; only an entry on this
    /// surface gives it the focus.
    pub open spec fn after_enter(self, on_our_surface: bool) -> SurfaceState {
        if on_our_surface {
            SurfaceState { keyboard_focus: true, ..self }
        } else {
            self
        }
    }

    /// The state after the keyboard left a surface; only leaving this surface
    /// takes the focus away.
    pub open spec fn after_leave(self, on_our_surface: bool) -> SurfaceState {
        if on_our_surface {
            SurfaceState { keyboard_focus: false, ..self }
        } else {
            self
        }
    }

    /// The device to take when the seat announces `capability`: the keyboard
    /// or the pointer, unless the surface already holds it.
    pub open spec fn acquires(self, capability: Capability) -> Option<SeatDevice> {
        match capability {
            Capability::Keyboard => if self.has_keyboard {
                None
            } else {
                Some(SeatDevice::Keyboard)
            },
            Capability::Pointer => if self.has_pointer {
                None
            } else {
                Some(SeatDevice::Pointer)
            },
            Capability::Touch => None,
        }
    }

    /// The state after the seat announced `capability`.
    pub open spec fn after_new_capability(self, capability: Capability) -> SurfaceState {
        match capability {
            Capability::Keyboard => SurfaceState { has_keyboard: true, ..self },
            Capability::Pointer => SurfaceState { has_pointer: true, ..self },
            Capability::Touch => self,
        }
    }

    /// The device to release when the seat withdraws `capability`: the one
    /// that goes with it, if the surface holds it.
    pub open spec fn releases(self, capability: Capability) -> Option<SeatDevice> {
        match capability {
            Capability::Keyboard => if self.has_keyboard {
                Some(SeatDevice::Keyboard)
            } else {
                None
            },
            Capability::Pointer => if self.has_pointer {
                Some(SeatDevice::Pointer)
            } else {
                None
            },
            Capability::Touch => None,
        }
    }

    /// The state after the seat withdrew `capability`.
    pub open spec fn after_remove_capability(self, capability: Capability) -> SurfaceState {
        match capability {
            Capability::Keyboard => SurfaceState { has_keyboard: false, ..self },
            Capability::Pointer => SurfaceState { has_pointer: false, ..self },
            Capability::Touch => self,
        }
    }

    /// The state after the compositor reported new modifiers.
    pub open spec fn after_update_modifiers(self, modifiers: SeatModifiers) -> SurfaceState {
        SurfaceState { keyboard_modifiers: modifiers, ..self }
    }

    /// The program's event for a key press (`pressed`) or release of the key
    /// with `keysym`: none without the keyboard focus or for a keysym that no
    /// key is read from; otherwise the key with the current modifiers.
    pub open spec fn key_event(self, keysym: u32, pressed: bool) -> Option<KeyboardEvent> {
        if !self.keyboard_focus {
            None
        } else {
            match keycode_of(keysym) {
                Some(key_code) => {
                    let modifiers = program_modifiers(self.keyboard_modifiers);
                    if pressed {
                        Some(KeyboardEvent::KeyPressed { key_code, modifiers })
                    } else {
                        Some(KeyboardEvent::KeyReleased { key_code, modifiers })
                    }
                },
                None => None,
            }
        }
    }

    /// Whether a draw request renders the surface: only one for this surface.
    pub open spec fn draw_renders(self, on_our_surface: bool) -> bool {
        on_our_surface
    }

    /// The state after a draw request; a rendered surface is clean.
    pub open spec fn after_draw(self, on_our_surface: bool) -> SurfaceState {
        if on_our_surface {
            SurfaceState { dirty: false, ..self }
        } else {
            self
        }
    }

    /// The state of a freshly created surface: dirty, holding no device,
    /// without focus or modifiers, not yet configured.
    pub fn new() -> (res: SurfaceState)
        ensures
            res == SurfaceState::initial(),
    {
        SurfaceState {
            dirty: true,
            has_keyboard: false,
            keyboard_focus: false,
            keyboard_modifiers: SeatModifiers::default(),
            has_pointer: false,
            initial_configure_sent: false,
        }
    }

    /// Handles a configure of the layer surface. The program is updated on
    /// every configure; the result says whether to draw, which happens on the
    /// first configure only.
    pub fn configure(&mut self) -> (draw: bool)
        ensures
            draw == old(self).configure_draws(),
            *final(self) == old(self).after_configure(),
    {
        if !self.initial_configure_sent {
            self.initial_configure_sent = true;
            true
        } else {
            false
        }
    }

    /// Handles the keyboard entering a surface.
    pub fn enter(&mut self, on_our_surface: bool)
        ensures
            *final(self) == old(self).after_enter(on_our_surface),
    {
        if !on_our_surface {
            return ;
        }
        self.keyboard_focus = true;
    }

    /// Handles the keyboard leaving a surface.
    pub fn leave(&mut self, on_our_surface: bool)
        ensures
            *final(self) == old(self).after_leave(on_our_surface),
    {
        if !on_our_surface {
            return ;
        }
        self.keyboard_focus = false;
    }

    /// Handles the seat announcing a capability: the result names the device
    /// to take from the seat, and the state records it as held.
    pub fn new_capability(&mut self, capability: Capability) -> (res: Option<SeatDevice>)
        ensures
            res == old(self).acquires(capability),
            *final(self) == old(self).after_new_capability(capability),
            final(self).has_keyboard == (old(self).has_keyboard || capability
                == Capability::Keyboard),
            final(self).has_pointer == (old(self).has_pointer || capability == Capability::Pointer),
    {
        match capability {
            Capability::Keyboard => {
                if !self.has_keyboard {
                    self.has_keyboard = true;
                    Some(SeatDevice::Keyboard)
                } else {
                    None
                }
            },
            Capability::Pointer => {
                if !self.has_pointer {
                    self.has_pointer = true;
                    Some(SeatDevice::Pointer)
                } else {
                    None
                }
            },
            Capability::Touch => None,
        }
    }

    /// Handles the seat withdrawing a capability: the result names the held
    /// device to release, and the state records it as gone.
    pub fn remove_capability(&mut self, capability: Capability) -> (res: Option<SeatDevice>)
        ensures
            res == old(self).releases(capability),
            *final(self) == old(self).after_remove_capability(capability),
            final(self).has_keyboard == (old(self).has_keyboard && capability
                != Capability::Keyboard),
            final(self).has_pointer == (old(self).has_pointer && capability != Capability::Pointer),
    {
        match capability {
            Capability::Keyboard => {
                if self.has_keyboard {
                    self.has_keyboard = false;
                    Some(SeatDevice::Keyboard)
                } else {
                    None
                }
            },
            Capability::Pointer => {
                if self.has_pointer {
                    self.has_pointer = false;
                    Some(SeatDevice::Pointer)
                } else {
                    None
                }
            },
            Capability::Touch => None,
        }
    }

    /// Records the modifiers the compositor reported.
    pub fn update_modifiers(&mut self, modifiers: SeatModifiers)
        ensures
            *final(self) == old(self).after_update_modifiers(modifiers),
    {
        self.keyboard_modifiers = modifiers;
    }

    /// The program's event for a key press or release.
    fn key_event_exec(&self, keysym: u32, pressed: bool) -> (res: Option<KeyboardEvent>)
        ensures
            res == self.key_event(keysym, pressed),
    {
        if !self.keyboard_focus {
            return None;
        }
        let key_code = match keysym_to_keycode(keysym) {
            Some(key_code) => key_code,
            None => {
                return None;
            },
        };
        let modifiers = to_program_modifiers(&self.keyboard_modifiers);
        if pressed {
            Some(KeyboardEvent::KeyPressed { key_code, modifiers })
        } else {
            Some(KeyboardEvent::KeyReleased { key_code, modifiers })
        }
    }

    /// Handles a key press: the program's event to queue, if any.
    pub fn press_key(&self, keysym: u32) -> (res: Option<KeyboardEvent>)
        ensures
            res == self.key_event(keysym, true),
            res matches Some(KeyboardEvent::KeyPressed { key_code, modifiers }) ==> keysym_of(
                key_code,
            ) == keysym && modifiers == program_modifiers(self.keyboard_modifiers),
            res matches Some(KeyboardEvent::KeyReleased { key_code, modifiers }) ==> keysym_of(
                key_code,
            ) == keysym && modifiers == program_modifiers(self.keyboard_modifiers),
    {
        self.key_event_exec(keysym, true)
    }

    /// Handles a key release: the program's event to queue, if any.
    pub fn release_key(&self, keysym: u32) -> (res: Option<KeyboardEvent>)
        ensures
            res == self.key_event(keysym, false),
            res matches Some(KeyboardEvent::KeyPressed { key_code, modifiers }) ==> keysym_of(
                key_code,
            ) == keysym && modifiers == program_modifiers(self.keyboard_modifiers),
            res matches Some(KeyboardEvent::KeyReleased { key_code, modifiers }) ==> keysym_of(
                key_code,
            ) == keysym && modifiers == program_modifiers(self.keyboard_modifiers),
    {
        self.key_event_exec(keysym, false)
    }

    /// Handles a request to draw a surface: the result says whether to render
    /// this surface, after which it is clean.
    pub fn draw(&mut self, on_our_surface: bool) -> (render: bool)
        ensures
            render == old(self).draw_renders(on_our_surface),
            *final(self) == old(self).after_draw(on_our_surface),
    {
        if !on_our_surface {
            return false;
        }
        self.dirty = false;
        true
    }
}

/// What the timer does each time it fires: it sends the program an
/// increment and fires again after `TIMER_INTERVAL_SECS` seconds.
pub fn timer_fired() -> (res: (Message, u64))
    ensures
        res == (Message::IncrementPressed, TIMER_INTERVAL_SECS),
{
    (Message::IncrementPressed, TIMER_INTERVAL_SECS)
}

/// Whether index `i` is the first sRGB format among the surface's formats
/// (given by whether each is an sRGB format).
pub open spec fn is_first_srgb(srgb: Seq<bool>, i: int) -> bool {
    &&& 0 <= i < srgb.len()
    &&& srgb[i]
    &&& forall|j: int| 0 <= j < i ==> !srgb[j]
}

/// Whether none of the surface's formats is an sRGB format.
pub open spec fn no_srgb(srgb: Seq<bool>) -> bool {
    forall|j: int| 0 <= j < srgb.len() ==> !srgb[j]
}

/// Chooses the surface's format: the index of the first sRGB format, or else
/// the first index; none when the surface supports no format.
pub fn choose_surface_format(srgb: &Vec<bool>) -> (res: Option<usize>)
    ensures
        match res {
            Some(i) => is_first_srgb(srgb@, i as int) || (i == 0 && srgb.len() > 0 && no_srgb(
                srgb@,
            )),
            None => srgb.len() == 0,
        },
{
    let n: usize = srgb.len();
    for i in 0..n
        invariant
            n == srgb.len(),
            forall|j: int| 0 <= j < i ==> !srgb[j],
    {
        if srgb[i] {
            return Some(i);
        }
    }
    if n > 0 {
        Some(0)
    } else {
        None
    }
}

/// Exactly one format satisfies the choice of `choose_surface_format`: the
/// first sRGB format, or the first format when none is sRGB.
pub proof fn lemma_surface_format_unique(srgb: Seq<bool>, a: int, b: int)
    requires
        is_first_srgb(srgb, a) || (a == 0 && srgb.len() > 0 && no_srgb(srgb)),
        is_first_srgb(srgb, b) || (b == 0 && srgb.len() > 0 && no_srgb(srgb)),
    ensures
        a == b,
{
}

/// Only the first configure draws: a fresh surface draws on its first
/// configure, and no configure after a configure draws.
pub proof fn lemma_configure_draws_once(s: SurfaceState)
    ensures
        SurfaceState::initial().configure_draws(),
        !s.after_configure().configure_draws(),
        !s.after_configure().after_configure().configure_draws(),
{
}

/// Without the keyboard focus no key reaches the program; in particular
/// none does after the keyboard left this surface, until it enters again.
pub proof fn lemma_no_key_events_without_focus(s: SurfaceState, keysym: u32, pressed: bool)
    ensures
        !s.keyboard_focus ==> s.key_event(keysym, pressed) is None,
        s.after_leave(true).key_event(keysym, pressed) is None,
        SurfaceState::initial().key_event(keysym, pressed) is None,
{
}

/// With the keyboard focus on this surface, exactly the keys read from a
/// known keysym reach the program.
pub proof fn lemma_focused_keys_reach_program(s: SurfaceState, keysym: u32, pressed: bool)
    ensures
        s.after_enter(true).key_event(keysym, pressed) is Some <==> keycode_of(keysym) is Some,
{
}

/// Entering or leaving another surface changes nothing.
pub proof fn lemma_other_surface_ignored(s: SurfaceState)
    ensures
        s.after_enter(false) == s,
        s.after_leave(false) == s,
        s.after_draw(false) == s,
        !s.draw_renders(false),
{
}

/// A press and a release of the same key give the program the same key with
/// the same modifiers, or both give nothing.
pub proof fn lemma_press_release_agree(s: SurfaceState, keysym: u32)
    ensures
        match (s.key_event(keysym, true), s.key_event(keysym, false)) {
            (
                Some(KeyboardEvent::KeyPressed { key_code: a, modifiers: m }),
                Some(KeyboardEvent::KeyReleased { key_code: b, modifiers: n }),
            ) => a == b && m == n,
            (None, None) => true,
            _ => false,
        },
{
}

/// Key events carry the modifiers that the compositor reported last.
pub proof fn lemma_key_events_carry_modifiers(
    s: SurfaceState,
    modifiers: SeatModifiers,
    keysym: u32,
    pressed: bool,
)
    ensures
        match s.after_update_modifiers(modifiers).key_event(keysym, pressed) {
            Some(KeyboardEvent::KeyPressed { modifiers: m, .. }) => m == program_modifiers(
                modifiers,
            ),
            Some(KeyboardEvent::KeyReleased { modifiers: m, .. }) => m == program_modifiers(
                modifiers,
            ),
            None => true,
        },
{
}

/// A device is taken from the seat at most once while it is held, and a
/// device that was taken is the one released when its capability goes.
pub proof fn lemma_devices_taken_once(s: SurfaceState, capability: Capability)
    ensures
        s.after_new_capability(capability).acquires(capability) is None,
        s.acquires(capability) matches Some(d) ==> s.after_new_capability(capability).releases(
            capability,
        ) == Some(d),
        s.after_remove_capability(capability).releases(capability) is None,
        s.releases(capability) matches Some(d) ==> s.after_remove_capability(
            capability,
        ).acquires(capability) == Some(d),
{
}

/// A drawn surface is clean.
pub proof fn lemma_draw_cleans(s: SurfaceState)
    ensures
        s.draw_renders(true),
        !s.after_draw(true).dirty,
{
}

/// The key of a keyboard event is the key the keysym is read from: an event
/// for a keysym always names the key whose keysym it is, with the modifiers
/// the compositor reported last; and with the focus every keysym that some
/// key is read from gives an event.
pub proof fn lemma_key_events_name_their_key(
    s: SurfaceState,
    keysym: u32,
    pressed: bool,
    code: KeyCode,
)
    ensures
        s.key_event(keysym, pressed) matches Some(KeyboardEvent::KeyPressed { key_code, modifiers })
            ==> keysym_of(key_code) == keysym && pressed && modifiers == program_modifiers(
            s.keyboard_modifiers,
        ),
        s.key_event(keysym, pressed) matches Some(KeyboardEvent::KeyReleased { key_code, modifiers })
            ==> keysym_of(key_code) == keysym && !pressed && modifiers == program_modifiers(
            s.keyboard_modifiers,
        ),
        s.keyboard_focus && keysym_of(code) == keysym ==> s.key_event(keysym, pressed) is Some,
{
    if s.key_event(keysym, pressed) is Some {
        let c = choose|c: KeyCode| keysym_of(c) == keysym;
        assert(keysym_of(c) == keysym);
    }
    if s.keyboard_focus && keysym_of(code) == keysym {
        assert(exists|c: KeyCode| keysym_of(c) == keysym);
    }
}

/// Announcing or withdrawing one capability leaves the other device as it
/// was: only the keyboard capability changes whether the keyboard is held,
/// only the pointer capability whether the pointer is, and nothing else of
/// the state changes.
pub proof fn lemma_capabilities_are_independent(s: SurfaceState, capability: Capability)
    ensures
        s.after_new_capability(capability).has_keyboard == (s.has_keyboard || capability
            == Capability::Keyboard),
        s.after_new_capability(capability).has_pointer == (s.has_pointer || capability
            == Capability::Pointer),
        s.after_remove_capability(capability).has_keyboard == (s.has_keyboard && capability
            != Capability::Keyboard),
        s.after_remove_capability(capability).has_pointer == (s.has_pointer && capability
            != Capability::Pointer),
        capability != Capability::Keyboard ==> s.after_remove_capability(capability).releases(
            Capability::Keyboard,
        ) == s.releases(Capability::Keyboard) && s.after_new_capability(capability).acquires(
            Capability::Keyboard,
        ) == s.acquires(Capability::Keyboard),
        capability != Capability::Pointer ==> s.after_remove_capability(capability).releases(
            Capability::Pointer,
        ) == s.releases(Capability::Pointer) && s.after_new_capability(capability).acquires(
            Capability::Pointer,
        ) == s.acquires(Capability::Pointer),
        s.has_keyboard ==> s.releases(Capability::Keyboard) == Some(SeatDevice::Keyboard),
        s.has_pointer ==> s.releases(Capability::Pointer) == Some(SeatDevice::Pointer),
        s.after_remove_capability(capability).keyboard_focus == s.keyboard_focus,
        s.after_remove_capability(capability).keyboard_modifiers == s.keyboard_modifiers,
        s.after_remove_capability(capability).dirty == s.dirty,
        s.after_remove_capability(capability).initial_configure_sent == s.initial_configure_sent,
        s.after_new_capability(capability).keyboard_focus == s.keyboard_focus,
        s.after_new_capability(capability).keyboard_modifiers == s.keyboard_modifiers,
        s.after_new_capability(capability).dirty == s.dirty,
        s.after_new_capability(capability).initial_configure_sent == s.initial_configure_sent,
{
}

/// A new surface is dirty, holds no device, has no keyboard focus, no
/// modifier or lock is active, and it has not been configured yet.
pub proof fn lemma_initial_state()
    ensures
        SurfaceState::initial().dirty,
        !SurfaceState::initial().has_keyboard,
        !SurfaceState::initial().has_pointer,
        !SurfaceState::initial().keyboard_focus,
        !SurfaceState::initial().initial_configure_sent,
        !SurfaceState::initial().keyboard_modifiers.ctrl,
        !SurfaceState::initial().keyboard_modifiers.alt,
        !SurfaceState::initial().keyboard_modifiers.shift,
        !SurfaceState::initial().keyboard_modifiers.logo,
        !SurfaceState::initial().keyboard_modifiers.caps_lock,
        !SurfaceState::initial().keyboard_modifiers.num_lock,
{
}

/// The keyboard entering this surface gives it the focus and leaving this
/// surface takes the focus away; configuring, drawing and entering or
/// leaving change nothing else of the state.
pub proof fn lemma_transitions_touch_one_field(s: SurfaceState, on_our_surface: bool)
    ensures
        s.after_enter(true).keyboard_focus,
        !s.after_leave(true).keyboard_focus,
        s.after_enter(on_our_surface) == (SurfaceState {
            keyboard_focus: s.after_enter(on_our_surface).keyboard_focus,
            ..s
        }),
        s.after_leave(on_our_surface) == (SurfaceState {
            keyboard_focus: s.after_leave(on_our_surface).keyboard_focus,
            ..s
        }),
        s.after_configure().initial_configure_sent,
        s.after_configure() == (SurfaceState { initial_configure_sent: true, ..s }),
        s.after_draw(on_our_surface) == (SurfaceState {
            dirty: s.after_draw(on_our_surface).dirty,
            ..s
        }),
        s.after_draw(on_our_surface).dirty == (s.dirty && !on_our_surface),
        s.draw_renders(on_our_surface) == on_our_surface,
        s.configure_draws() == !s.initial_configure_sent,
        s.after_update_modifiers(s.keyboard_modifiers) == s,
{
}

/// The keyboard and the pointer are taken when their capability is
/// announced and not yet held, and released when it is withdrawn while
/// held; touch is never taken.
pub proof fn lemma_capability_devices(s: SurfaceState)
    ensures
        s.acquires(Capability::Keyboard) == if s.has_keyboard {
            None
        } else {
            Some(SeatDevice::Keyboard)
        },
        s.acquires(Capability::Pointer) == if s.has_pointer {
            None
        } else {
            Some(SeatDevice::Pointer)
        },
        s.releases(Capability::Keyboard) == if s.has_keyboard {
            Some(SeatDevice::Keyboard)
        } else {
            None
        },
        s.releases(Capability::Pointer) == if s.has_pointer {
            Some(SeatDevice::Pointer)
        } else {
            None
        },
        s.acquires(Capability::Touch) is None,
        s.releases(Capability::Touch) is None,
        s.after_new_capability(Capability::Touch) == s,
        s.after_remove_capability(Capability::Touch) == s,
{
}

} // verus!
