use vstd::prelude::*;

verus! {

/// The input event code of the left mouse button (`BTN_LEFT`).
pub const BTN_LEFT: u32 = 0x110;

/// The input event code of the right mouse button (`BTN_RIGHT`).
pub const BTN_RIGHT: u32 = 0x111;

/// The input event code of the middle mouse button (`BTN_MIDDLE`).
pub const BTN_MIDDLE: u32 = 0x112;

/// A mouse button as the program sees it.
#[derive(Debug, Clone, Copy, PartialEq, Eq, Structural)]
pub enum MouseButton {
    Left,
    Right,
    Middle,
    Other(u16),
}

/// The program's button for the input event code of a pointer button: the
/// three main buttons by name, any other code that fits in 16 bits as
/// `Other`, and none for codes beyond that.
pub open spec fn mouse_button_of(button: u32) -> Option<MouseButton> {
    if button == BTN_LEFT {
        Some(MouseButton::Left)
    } else if button == BTN_RIGHT {
        Some(MouseButton::Right)
    } else if button == BTN_MIDDLE {
        Some(MouseButton::Middle)
    } else if button <= u16::MAX {
        Some(MouseButton::Other(button as u16))
    } else {
        None
    }
}

/// Translates the input event code of a pointer button into the program's
/// button.
pub fn button_to_mouse_button(button: u32) -> (res: Option<MouseButton>)
    ensures
        res == mouse_button_of(button),
        button == 0x110 ==> res == Some(MouseButton::Left),
        button == 0x111 ==> res == Some(MouseButton::Right),
        button == 0x112 ==> res == Some(MouseButton::Middle),
        button <= 0xffff && button != 0x110 && button != 0x111 && button != 0x112 ==> res == Some(
            MouseButton::Other(button as u16),
        ),
        button > 0xffff ==> res is None,
{
    if button == BTN_LEFT {
        Some(MouseButton::Left)
    } else if button == BTN_RIGHT {
        Some(MouseButton::Right)
    } else if button == BTN_MIDDLE {
        Some(MouseButton::Middle)
    } else if button <= 0xffff {
        Some(MouseButton::Other(button as u16))
    } else {
        None
    }
}

/// The device that produced a scroll.
#[derive(Debug, Clone, Copy, PartialEq, Eq, Structural)]
pub enum AxisSource {
    Wheel,
    Finger,
    Continuous,
    WheelTilt,
    /// A source that a later version of the protocol added.
    Other,
}

/// What happened to the pointer. Positions and pixel amounts stay with the
/// caller, which holds them for each event.
#[derive(Debug, Clone, Copy, PartialEq, Eq, Structural)]
pub enum PointerKind {
    Enter,
    Leave,
    Motion,
    Press { button: u32 },
    Release { button: u32 },
    /// A scroll, with the number of discrete steps on each axis.
    Axis { source: Option<AxisSource>, discrete_x: i32, discrete_y: i32 },
}

/// One event of a pointer frame: what happened, and whether it happened on
/// this application's surface.
#[derive(Debug, Clone, Copy, PartialEq, Eq, Structural)]
pub struct PointerInput {
    pub on_surface: bool,
    pub kind: PointerKind,
}

/// How far a scroll went.
#[derive(Debug, Clone, Copy, PartialEq, Eq, Structural)]
pub enum ScrollDelta {
    /// By lines: the discrete steps of the event.
    Lines { x: i32, y: i32 },
    /// By pixels: the event's absolute amounts, which the caller holds.
    Pixels,
}

/// A mouse event as the program receives it. A moved cursor takes the
/// position of the pointer event it came from.
#[derive(Debug, Clone, Copy, PartialEq, Eq, Structural)]
pub enum MouseEvent {
    CursorEntered,
    CursorLeft,
    CursorMoved,
    ButtonPressed(MouseButton),
    ButtonReleased(MouseButton),
    WheelScrolled(ScrollDelta),
}

/// A pointer event that can be translated: a scroll on this surface always
/// names its source.
pub open spec fn translatable(input: PointerInput) -> bool {
    input.on_surface ==> !(input.kind matches PointerKind::Axis { source: None, .. })
}

/// The scroll that a source reports: wheels scroll by lines, fingers and
/// continuous devices by pixels; other sources are not passed on.
pub open spec fn scroll_of(source: AxisSource, discrete_x: i32, discrete_y: i32) -> Option<
    ScrollDelta,
> {
    match source {
        AxisSource::Wheel => Some(ScrollDelta::Lines { x: discrete_x, y: discrete_y }),
        AxisSource::WheelTilt => Some(ScrollDelta::Lines { x: discrete_x, y: discrete_y }),
        AxisSource::Finger => Some(ScrollDelta::Pixels),
        AxisSource::Continuous => Some(ScrollDelta::Pixels),
        AxisSource::Other => None,
    }
}

/// The program's mouse event for one pointer event, if it gets one: events
/// on other surfaces, buttons without a program button and scrolls from
/// other sources are dropped.
pub open spec fn translate(input: PointerInput) -> Option<MouseEvent> {
    if !input.on_surface {
        None
    } else {
        match input.kind {
            PointerKind::Enter => Some(MouseEvent::CursorEntered),
            PointerKind::Leave => Some(MouseEvent::CursorLeft),
            PointerKind::Motion => Some(MouseEvent::CursorMoved),
            PointerKind::Press { button } => match mouse_button_of(button) {
                Some(b) => Some(MouseEvent::ButtonPressed(b)),
                None => None,
            },
            PointerKind::Release { button } => match mouse_button_of(button) {
                Some(b) => Some(MouseEvent::ButtonReleased(b)),
                None => None,
            },
            PointerKind::Axis { source, discrete_x, discrete_y } => match source {
                Some(s) => match scroll_of(s, discrete_x, discrete_y) {
                    Some(d) => Some(MouseEvent::WheelScrolled(d)),
                    None => None,
                },
                None => None,
            },
        }
    }
}

/// Translates one pointer event.
pub fn translate_pointer_event(input: &PointerInput) -> (res: Option<MouseEvent>)
    requires
        translatable(*input),
    ensures
        res == translate(*input),
{
    if !input.on_surface {
        return None;
    }
    match input.kind {
        PointerKind::Enter => Some(MouseEvent::CursorEntered),
        PointerKind::Leave => Some(MouseEvent::CursorLeft),
        PointerKind::Motion => Some(MouseEvent::CursorMoved),
        PointerKind::Press { button } => match button_to_mouse_button(button) {
            Some(b) => Some(MouseEvent::ButtonPressed(b)),
            None => None,
        },
        PointerKind::Release { button } => match button_to_mouse_button(button) {
            Some(b) => Some(MouseEvent::ButtonReleased(b)),
            None => None,
        },
        PointerKind::Axis { source, discrete_x, discrete_y } => {
            let delta = match source {
                Some(AxisSource::Wheel) => ScrollDelta::Lines { x: discrete_x, y: discrete_y },
                Some(AxisSource::Finger) => ScrollDelta::Pixels,
                Some(AxisSource::Continuous) => ScrollDelta::Pixels,
                Some(AxisSource::WheelTilt) => ScrollDelta::Lines { x: discrete_x, y: discrete_y },
                _ => {
                    return None;
                },
            };
            Some(MouseEvent::WheelScrolled(delta))
        },
    }
}

/// The outcome of a pointer frame.
pub struct PointerFrame {
    /// The program's mouse events, each with the index of the pointer event
    /// it came from, in the order of the frame.
    pub events: Vec<(usize, MouseEvent)>,
    /// The index of the pointer event whose position becomes the pointer's
    /// location, if any event of the frame moves it.
    pub last_motion: Option<usize>,
}

/// The program's mouse events for a frame of pointer events, each paired
/// with the index of the pointer event it came from.
pub open spec fn frame_events(inputs: Seq<PointerInput>) -> Seq<(usize, MouseEvent)>
    decreases inputs.len(),
{
    if inputs.len() == 0 {
        Seq::empty()
    } else {
        let earlier = frame_events(inputs.drop_last());
        match translate(inputs.last()) {
            Some(e) => earlier.push(((inputs.len() - 1) as usize, e)),
            None => earlier,
        }
    }
}

/// Whether a pointer event moves the pointer on this surface.
pub open spec fn moves_pointer(input: PointerInput) -> bool {
    input.on_surface && input.kind is Motion
}

/// The index of the last event of the frame that moves the pointer on this
/// surface.
pub open spec fn last_motion(inputs: Seq<PointerInput>) -> Option<usize>
    decreases inputs.len(),
{
    if inputs.len() == 0 {
        None
    } else if moves_pointer(inputs.last()) {
        Some((inputs.len() - 1) as usize)
    } else {
        last_motion(inputs.drop_last())
    }
}

/// Translates a frame of pointer events into the program's mouse events, in
/// order, and finds the event that sets the pointer's new location.
pub fn pointer_frame(inputs: &Vec<PointerInput>) -> (res: PointerFrame)
    requires
        forall|i: int| 0 <= i < inputs.len() ==> translatable(#[trigger] inputs@[i]),
    ensures
        res.events@ == frame_events(inputs@),
        res.last_motion == last_motion(inputs@),
{
    let mut events: Vec<(usize, MouseEvent)> = Vec::new();
    let mut last: Option<usize> = None;
    let n: usize = inputs.len();
    for i in 0..n
        invariant
            n == inputs.len(),
            forall|j: int| 0 <= j < inputs.len() ==> translatable(#[trigger] inputs@[j]),
            events@ == frame_events(inputs@.take(i as int)),
            last == last_motion(inputs@.take(i as int)),
    {
        let input = &inputs[i];
        assert(inputs@.take(i + 1).drop_last() =~= inputs@.take(i as int));
        assert(inputs@.take(i + 1).last() == inputs@[i as int]);
        if let Some(e) = translate_pointer_event(input) {
            events.push((i, e));
        }
        if input.on_surface {
            if let PointerKind::Motion = input.kind {
                last = Some(i);
            }
        }
    }
    assert(inputs@.take(n as int) =~= inputs@);
    PointerFrame { events, last_motion: last }
}

/// Every mouse event of a frame comes from an event of the frame, on this
/// surface, that translates to it; and the events keep the order of the
/// frame, each pointer event giving at most one.
pub proof fn lemma_frame_events_sound(inputs: Seq<PointerInput>)
    requires
        inputs.len() <= usize::MAX,
    ensures
        forall|j: int|
            0 <= j < frame_events(inputs).len() ==> {
                let (i, e) = #[trigger] frame_events(inputs)[j];
                &&& i < inputs.len()
                &&& inputs[i as int].on_surface
                &&& translate(inputs[i as int]) == Some(e)
            },
        forall|j: int, k: int|
            0 <= j < k < frame_events(inputs).len() ==> #[trigger] frame_events(inputs)[j].0
                < #[trigger] frame_events(inputs)[k].0,
    decreases inputs.len(),
{
    if inputs.len() > 0 {
        let prefix = inputs.drop_last();
        let earlier = frame_events(prefix);
        let all = frame_events(inputs);
        lemma_frame_events_sound(prefix);
        assert forall|j: int| 0 <= j < earlier.len() implies #[trigger] earlier[j].0 < inputs.len()
            - 1 by {}
        assert forall|j: int| 0 <= j < earlier.len() implies #[trigger] all[j] == earlier[j] by {}
        assert forall|j: int|
            0 <= j < all.len() implies {
            let (i, e) = #[trigger] all[j];
            &&& i < inputs.len()
            &&& inputs[i as int].on_surface
            &&& translate(inputs[i as int]) == Some(e)
        } by {
            if j < earlier.len() {
                assert(all[j] == earlier[j]);
                assert(prefix[earlier[j].0 as int] == inputs[earlier[j].0 as int]);
            }
        }
        assert forall|j: int, k: int| 0 <= j < k < all.len() implies #[trigger] all[j].0
            < #[trigger] all[k].0 by {
            assert(all[j] == earlier[j]);
            if k < earlier.len() {
                assert(all[k] == earlier[k]);
            }
        }
    }
}

/// Every event of a frame that the program has a translation for reaches
/// the program.
pub proof fn lemma_frame_events_complete(inputs: Seq<PointerInput>, i: int)
    requires
        inputs.len() <= usize::MAX,
        0 <= i < inputs.len(),
        translate(inputs[i]) is Some,
    ensures
        exists|j: int|
            0 <= j < frame_events(inputs).len() && #[trigger] frame_events(inputs)[j] == (
                i as usize,
                translate(inputs[i])->0,
            ),
    decreases inputs.len(),
{
    let prefix = inputs.drop_last();
    if i == inputs.len() - 1 {
        let j = frame_events(prefix).len() as int;
        assert(frame_events(inputs)[j] == (i as usize, translate(inputs[i])->0));
    } else {
        lemma_frame_events_complete(prefix, i);
        let j = choose|j: int|
            0 <= j < frame_events(prefix).len() && #[trigger] frame_events(prefix)[j] == (
                i as usize,
                translate(prefix[i])->0,
            );
        assert(frame_events(inputs)[j] == frame_events(prefix)[j]);
    }
}

/// The pointer's new location comes from the last event of the frame that
/// moves it on this surface; when none does, the location stays.
pub proof fn lemma_last_motion_is_last(inputs: Seq<PointerInput>)
    requires
        inputs.len() <= usize::MAX,
    ensures
        match last_motion(inputs) {
            Some(i) => {
                &&& i < inputs.len()
                &&& moves_pointer(inputs[i as int])
                &&& forall|k: int| i < k < inputs.len() ==> !moves_pointer(#[trigger] inputs[k])
            },
            None => forall|k: int| 0 <= k < inputs.len() ==> !moves_pointer(#[trigger] inputs[k]),
        },
    decreases inputs.len(),
{
    if inputs.len() > 0 {
        let prefix = inputs.drop_last();
        lemma_last_motion_is_last(prefix);
        assert forall|k: int| 0 <= k < prefix.len() implies #[trigger] prefix[k] == inputs[k] by {}
        if !moves_pointer(inputs.last()) {
            match last_motion(prefix) {
                Some(i) => {
                    assert forall|k: int| i < k < inputs.len() implies !moves_pointer(
                        #[trigger] inputs[k],
                    ) by {
                        if k < prefix.len() {
                            assert(prefix[k] == inputs[k]);
                        }
                    }
                },
                None => {
                    assert forall|k: int| 0 <= k < inputs.len() implies !moves_pointer(
                        #[trigger] inputs[k],
                    ) by {
                        if k < prefix.len() {
                            assert(prefix[k] == inputs[k]);
                        }
                    }
                },
            }
        }
    }
}

/// The three main button codes give the three named buttons; every other
/// code that fits in 16 bits gives `Other` of that very code; larger codes
/// give no button.
pub proof fn lemma_mouse_button_codes(button: u32)
    ensures
        button == 0x110 ==> mouse_button_of(button) == Some(MouseButton::Left),
        button == 0x111 ==> mouse_button_of(button) == Some(MouseButton::Right),
        button == 0x112 ==> mouse_button_of(button) == Some(MouseButton::Middle),
        button <= 0xffff && button != 0x110 && button != 0x111 && button != 0x112
            ==> mouse_button_of(button) == Some(MouseButton::Other(button as u16)),
        button > 0xffff ==> mouse_button_of(button) is None,
        mouse_button_of(button) matches Some(MouseButton::Other(code)) ==> code as u32 == button,
{
}

/// On this surface a press of a button reaches the program as the press of
/// its program button, and a release as the release of the same button: a
/// press and a release of one button are either both passed on, naming the
/// same button, or both dropped.
pub proof fn lemma_buttons_press_and_release(button: u32)
    ensures
        mouse_button_of(button) matches Some(b) ==> translate(
            PointerInput { on_surface: true, kind: PointerKind::Press { button } },
        ) == Some(MouseEvent::ButtonPressed(b)),
        mouse_button_of(button) matches Some(b) ==> translate(
            PointerInput { on_surface: true, kind: PointerKind::Release { button } },
        ) == Some(MouseEvent::ButtonReleased(b)),
        button <= 0xffff ==> translate(
            PointerInput { on_surface: true, kind: PointerKind::Press { button } },
        ) is Some,
        match (
            translate(PointerInput { on_surface: true, kind: PointerKind::Press { button } }),
            translate(PointerInput { on_surface: true, kind: PointerKind::Release { button } }),
        ) {
            (Some(MouseEvent::ButtonPressed(a)), Some(MouseEvent::ButtonReleased(b))) => a == b,
            (None, None) => true,
            _ => false,
        },
{
}

/// What each pointer event on this surface becomes: entering, leaving and
/// moving give the cursor events of the same name; a scroll from a wheel
/// gives lines with the event's own step counts, one from a finger or a
/// continuous device gives pixels, one from another source nothing; and no
/// event on another surface reaches the program.
pub proof fn lemma_translate_kinds(input: PointerInput, source: AxisSource, x: i32, y: i32)
    ensures
        !input.on_surface ==> translate(input) is None,
        translate(PointerInput { on_surface: true, kind: PointerKind::Enter }) == Some(
            MouseEvent::CursorEntered,
        ),
        translate(PointerInput { on_surface: true, kind: PointerKind::Leave }) == Some(
            MouseEvent::CursorLeft,
        ),
        translate(PointerInput { on_surface: true, kind: PointerKind::Motion }) == Some(
            MouseEvent::CursorMoved,
        ),
        (source == AxisSource::Wheel || source == AxisSource::WheelTilt) ==> translate(
            PointerInput {
                on_surface: true,
                kind: PointerKind::Axis { source: Some(source), discrete_x: x, discrete_y: y },
            },
        ) == Some(MouseEvent::WheelScrolled(ScrollDelta::Lines { x, y })),
        (source == AxisSource::Finger || source == AxisSource::Continuous) ==> translate(
            PointerInput {
                on_surface: true,
                kind: PointerKind::Axis { source: Some(source), discrete_x: x, discrete_y: y },
            },
        ) == Some(MouseEvent::WheelScrolled(ScrollDelta::Pixels)),
        source == AxisSource::Other ==> translate(
            PointerInput {
                on_surface: true,
                kind: PointerKind::Axis { source: Some(source), discrete_x: x, discrete_y: y },
            },
        ) is None,
        moves_pointer(input) <==> (input.on_surface && input.kind == PointerKind::Motion),
        moves_pointer(input) ==> translate(input) == Some(MouseEvent::CursorMoved),
{
}

} // verus!
