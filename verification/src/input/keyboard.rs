use vstd::prelude::*;

verus! {

/// A key as the counter program sees it: one variant for each key that the
/// surface passes on to the program.
#[derive(Debug, Clone, Copy, PartialEq, Eq, Structural)]
pub enum KeyCode {
    Key0,
    Key1,
    Key2,
    Key3,
    Key4,
    Key5,
    Key6,
    Key7,
    Key8,
    Key9,
    A,
    B,
    C,
    D,
    E,
    F,
    G,
    H,
    I,
    J,
    K,
    L,
    M,
    N,
    O,
    P,
    Q,
    R,
    S,
    T,
    U,
    V,
    W,
    X,
    Y,
    Z,
    Escape,
    F1,
    F2,
    F3,
    F4,
    F5,
    F6,
    F7,
    F8,
    F9,
    F10,
    F11,
    F12,
    F13,
    F14,
    F15,
    F16,
    F17,
    F18,
    F19,
    F20,
    F21,
    F22,
    F23,
    F24,
    Pause,
    Insert,
    Home,
    Delete,
    End,
    PageDown,
    PageUp,
    Left,
    Up,
    Right,
    Down,
    Backspace,
    Enter,
    Space,
    Caret,
    Numlock,
    Numpad0,
    Numpad1,
    Numpad2,
    Numpad3,
    Numpad4,
    Numpad5,
    Numpad6,
    Numpad7,
    Numpad8,
    Numpad9,
    NumpadAdd,
    NumpadDivide,
    NumpadDecimal,
    NumpadEnter,
    NumpadEquals,
    NumpadMultiply,
    NumpadSubtract,
    Apostrophe,
    Asterisk,
    Backslash,
    Calculator,
    Colon,
    Comma,
    Equals,
    Grave,
    Kanji,
    LAlt,
    LBracket,
    LControl,
    LShift,
    LWin,
    Mail,
    Minus,
    Mute,
    MyComputer,
    Period,
    Plus,
    RAlt,
    RBracket,
    RControl,
    RShift,
    RWin,
    Semicolon,
    Slash,
    Sleep,
    Stop,
    Tab,
    VolumeDown,
    VolumeUp,
    Yen,
    Copy,
    Paste,
    Cut,
}

/// The X keysym (the raw value of an xkb keysym) that each key is read from.
pub open spec fn keysym_of(code: KeyCode) -> u32 {
    match code {
        KeyCode::Key0 => 0x30,  // _0
        KeyCode::Key1 => 0x31,  // _1
        KeyCode::Key2 => 0x32,  // _2
        KeyCode::Key3 => 0x33,  // _3
        KeyCode::Key4 => 0x34,  // _4
        KeyCode::Key5 => 0x35,  // _5
        KeyCode::Key6 => 0x36,  // _6
        KeyCode::Key7 => 0x37,  // _7
        KeyCode::Key8 => 0x38,  // _8
        KeyCode::Key9 => 0x39,  // _9
        KeyCode::A => 0x61,  // a
        KeyCode::B => 0x62,  // b
        KeyCode::C => 0x63,  // c
        KeyCode::D => 0x64,  // d
        KeyCode::E => 0x65,  // e
        KeyCode::F => 0x66,  // f
        KeyCode::G => 0x67,  // g
        KeyCode::H => 0x68,  // h
        KeyCode::I => 0x69,  // i
        KeyCode::J => 0x6a,  // j
        KeyCode::K => 0x6b,  // k
        KeyCode::L => 0x6c,  // l
        KeyCode::M => 0x6d,  // m
        KeyCode::N => 0x6e,  // n
        KeyCode::O => 0x6f,  // o
        KeyCode::P => 0x70,  // p
        KeyCode::Q => 0x71,  // q
        KeyCode::R => 0x72,  // r
        KeyCode::S => 0x73,  // s
        KeyCode::T => 0x74,  // t
        KeyCode::U => 0x75,  // u
        KeyCode::V => 0x76,  // v
        KeyCode::W => 0x77,  // w
        KeyCode::X => 0x78,  // x
        KeyCode::Y => 0x79,  // y
        KeyCode::Z => 0x7a,  // z
        KeyCode::Escape => 0xff1b,  // Escape
        KeyCode::F1 => 0xffbe,  // F1
        KeyCode::F2 => 0xffbf,  // F2
        KeyCode::F3 => 0xffc0,  // F3
        KeyCode::F4 => 0xffc1,  // F4
        KeyCode::F5 => 0xffc2,  // F5
        KeyCode::F6 => 0xffc3,  // F6
        KeyCode::F7 => 0xffc4,  // F7
        KeyCode::F8 => 0xffc5,  // F8
        KeyCode::F9 => 0xffc6,  // F9
        KeyCode::F10 => 0xffc7,  // F10
        KeyCode::F11 => 0xffc8,  // F11
        KeyCode::F12 => 0xffc9,  // F12
        KeyCode::F13 => 0xffca,  // F13
        KeyCode::F14 => 0xffcb,  // F14
        KeyCode::F15 => 0xffcc,  // F15
        KeyCode::F16 => 0xffcd,  // F16
        KeyCode::F17 => 0xffce,  // F17
        KeyCode::F18 => 0xffcf,  // F18
        KeyCode::F19 => 0xffd0,  // F19
        KeyCode::F20 => 0xffd1,  // F20
        KeyCode::F21 => 0xffd2,  // F21
        KeyCode::F22 => 0xffd3,  // F22
        KeyCode::F23 => 0xffd4,  // F23
        KeyCode::F24 => 0xffd5,  // F24
        KeyCode::Pause => 0xff13,  // Pause
        KeyCode::Insert => 0xff63,  // Insert
        KeyCode::Home => 0xff50,  // Home
        KeyCode::Delete => 0xffff,  // Delete
        KeyCode::End => 0xff57,  // End
        KeyCode::PageDown => 0xff56,  // Page_Down
        KeyCode::PageUp => 0xff55,  // Page_Up
        KeyCode::Left => 0xff51,  // Left
        KeyCode::Up => 0xff52,  // Up
        KeyCode::Right => 0xff53,  // Right
        KeyCode::Down => 0xff54,  // Down
        KeyCode::Backspace => 0xff08,  // BackSpace
        KeyCode::Enter => 0xff0d,  // Return
        KeyCode::Space => 0x20,  // space
        KeyCode::Caret => 0xafc,  // caret
        KeyCode::Numlock => 0xff7f,  // Num_Lock
        KeyCode::Numpad0 => 0xffb0,  // KP_0
        KeyCode::Numpad1 => 0xffb1,  // KP_1
        KeyCode::Numpad2 => 0xffb2,  // KP_2
        KeyCode::Numpad3 => 0xffb3,  // KP_3
        KeyCode::Numpad4 => 0xffb4,  // KP_4
        KeyCode::Numpad5 => 0xffb5,  // KP_5
        KeyCode::Numpad6 => 0xffb6,  // KP_6
        KeyCode::Numpad7 => 0xffb7,  // KP_7
        KeyCode::Numpad8 => 0xffb8,  // KP_8
        KeyCode::Numpad9 => 0xffb9,  // KP_9
        KeyCode::NumpadAdd => 0xffab,  // KP_Add
        KeyCode::NumpadDivide => 0xffaf,  // KP_Divide
        KeyCode::NumpadDecimal => 0xffae,  // KP_Decimal
        KeyCode::NumpadEnter => 0xff8d,  // KP_Enter
        KeyCode::NumpadEquals => 0xffbd,  // KP_Equal
        KeyCode::NumpadMultiply => 0xffaa,  // KP_Multiply
        KeyCode::NumpadSubtract => 0xffad,  // KP_Subtract
        KeyCode::Apostrophe => 0x27,  // apostrophe
        KeyCode::Asterisk => 0x2a,  // asterisk
        KeyCode::Backslash => 0x5c,  // backslash
        KeyCode::Calculator => 0x1008ff1d,  // XF86_Calculator
        KeyCode::Colon => 0x3a,  // colon
        KeyCode::Comma => 0x2c,  // comma
        KeyCode::Equals => 0x3d,  // equal
        KeyCode::Grave => 0x60,  // grave
        KeyCode::Kanji => 0xff21,  // Kanji
        KeyCode::LAlt => 0xffe9,  // Alt_L
        KeyCode::LBracket => 0x5b,  // bracketleft
        KeyCode::LControl => 0xffe3,  // Control_L
        KeyCode::LShift => 0xffe1,  // Shift_L
        KeyCode::LWin => 0xffeb,  // Super_L
        KeyCode::Mail => 0x1008ff19,  // XF86_Mail
        KeyCode::Minus => 0x2d,  // minus
        KeyCode::Mute => 0x1008ff12,  // XF86_AudioMute
        KeyCode::MyComputer => 0x1008ff33,  // XF86_MyComputer
        KeyCode::Period => 0x2e,  // period
        KeyCode::Plus => 0x2b,  // plus
        KeyCode::RAlt => 0xffea,  // Alt_R
        KeyCode::RBracket => 0x5d,  // bracketright
        KeyCode::RControl => 0xffe4,  // Control_R
        KeyCode::RShift => 0xffe2,  // Shift_R
        KeyCode::RWin => 0xffec,  // Super_R
        KeyCode::Semicolon => 0x3b,  // semicolon
        KeyCode::Slash => 0x2f,  // slash
        KeyCode::Sleep => 0x1008ff2f,  // XF86_Sleep
        KeyCode::Stop => 0x1008ff28,  // XF86_Stop
        KeyCode::Tab => 0xff09,  // Tab
        KeyCode::VolumeDown => 0x1008ff11,  // XF86_AudioLowerVolume
        KeyCode::VolumeUp => 0x1008ff13,  // XF86_AudioRaiseVolume
        KeyCode::Yen => 0xa5,  // yen
        KeyCode::Copy => 0x1008ff57,  // XF86_Copy
        KeyCode::Paste => 0x1008ff6d,  // XF86_Paste
        KeyCode::Cut => 0x1008ff58,  // XF86_Cut
    }
}

/// The key read from `keysym`, if there is one.
pub open spec fn keycode_of(keysym: u32) -> Option<KeyCode> {
    if exists|code: KeyCode| keysym_of(code) == keysym {
        Some(choose|code: KeyCode| keysym_of(code) == keysym)
    } else {
        None
    }
}

/// Translates the keysym of a key event into the key the program receives.
///
/// A keysym that no key is read from has no translation, so such key events
/// are not passed on.
pub fn keysym_to_keycode(keysym: u32) -> (res: Option<KeyCode>)
    ensures
        res == keycode_of(keysym),
        match res {
            Some(code) => keysym_of(code) == keysym,
            None => forall|code: KeyCode| keysym_of(code) != keysym,
        },
{
    let res = match keysym {
        0x30 => Some(KeyCode::Key0),
        0x31 => Some(KeyCode::Key1),
        0x32 => Some(KeyCode::Key2),
        0x33 => Some(KeyCode::Key3),
        0x34 => Some(KeyCode::Key4),
        0x35 => Some(KeyCode::Key5),
        0x36 => Some(KeyCode::Key6),
        0x37 => Some(KeyCode::Key7),
        0x38 => Some(KeyCode::Key8),
        0x39 => Some(KeyCode::Key9),
        0x61 => Some(KeyCode::A),
        0x62 => Some(KeyCode::B),
        0x63 => Some(KeyCode::C),
        0x64 => Some(KeyCode::D),
        0x65 => Some(KeyCode::E),
        0x66 => Some(KeyCode::F),
        0x67 => Some(KeyCode::G),
        0x68 => Some(KeyCode::H),
        0x69 => Some(KeyCode::I),
        0x6a => Some(KeyCode::J),
        0x6b => Some(KeyCode::K),
        0x6c => Some(KeyCode::L),
        0x6d => Some(KeyCode::M),
        0x6e => Some(KeyCode::N),
        0x6f => Some(KeyCode::O),
        0x70 => Some(KeyCode::P),
        0x71 => Some(KeyCode::Q),
        0x72 => Some(KeyCode::R),
        0x73 => Some(KeyCode::S),
        0x74 => Some(KeyCode::T),
        0x75 => Some(KeyCode::U),
        0x76 => Some(KeyCode::V),
        0x77 => Some(KeyCode::W),
        0x78 => Some(KeyCode::X),
        0x79 => Some(KeyCode::Y),
        0x7a => Some(KeyCode::Z),
        0xff1b => Some(KeyCode::Escape),
        0xffbe => Some(KeyCode::F1),
        0xffbf => Some(KeyCode::F2),
        0xffc0 => Some(KeyCode::F3),
        0xffc1 => Some(KeyCode::F4),
        0xffc2 => Some(KeyCode::F5),
        0xffc3 => Some(KeyCode::F6),
        0xffc4 => Some(KeyCode::F7),
        0xffc5 => Some(KeyCode::F8),
        0xffc6 => Some(KeyCode::F9),
        0xffc7 => Some(KeyCode::F10),
        0xffc8 => Some(KeyCode::F11),
        0xffc9 => Some(KeyCode::F12),
        0xffca => Some(KeyCode::F13),
        0xffcb => Some(KeyCode::F14),
        0xffcc => Some(KeyCode::F15),
        0xffcd => Some(KeyCode::F16),
        0xffce => Some(KeyCode::F17),
        0xffcf => Some(KeyCode::F18),
        0xffd0 => Some(KeyCode::F19),
        0xffd1 => Some(KeyCode::F20),
        0xffd2 => Some(KeyCode::F21),
        0xffd3 => Some(KeyCode::F22),
        0xffd4 => Some(KeyCode::F23),
        0xffd5 => Some(KeyCode::F24),
        0xff13 => Some(KeyCode::Pause),
        0xff63 => Some(KeyCode::Insert),
        0xff50 => Some(KeyCode::Home),
        0xffff => Some(KeyCode::Delete),
        0xff57 => Some(KeyCode::End),
        0xff56 => Some(KeyCode::PageDown),
        0xff55 => Some(KeyCode::PageUp),
        0xff51 => Some(KeyCode::Left),
        0xff52 => Some(KeyCode::Up),
        0xff53 => Some(KeyCode::Right),
        0xff54 => Some(KeyCode::Down),
        0xff08 => Some(KeyCode::Backspace),
        0xff0d => Some(KeyCode::Enter),
        0x20 => Some(KeyCode::Space),
        0xafc => Some(KeyCode::Caret),
        0xff7f => Some(KeyCode::Numlock),
        0xffb0 => Some(KeyCode::Numpad0),
        0xffb1 => Some(KeyCode::Numpad1),
        0xffb2 => Some(KeyCode::Numpad2),
        0xffb3 => Some(KeyCode::Numpad3),
        0xffb4 => Some(KeyCode::Numpad4),
        0xffb5 => Some(KeyCode::Numpad5),
        0xffb6 => Some(KeyCode::Numpad6),
        0xffb7 => Some(KeyCode::Numpad7),
        0xffb8 => Some(KeyCode::Numpad8),
        0xffb9 => Some(KeyCode::Numpad9),
        0xffab => Some(KeyCode::NumpadAdd),
        0xffaf => Some(KeyCode::NumpadDivide),
        0xffae => Some(KeyCode::NumpadDecimal),
        0xff8d => Some(KeyCode::NumpadEnter),
        0xffbd => Some(KeyCode::NumpadEquals),
        0xffaa => Some(KeyCode::NumpadMultiply),
        0xffad => Some(KeyCode::NumpadSubtract),
        0x27 => Some(KeyCode::Apostrophe),
        0x2a => Some(KeyCode::Asterisk),
        0x5c => Some(KeyCode::Backslash),
        0x1008ff1d => Some(KeyCode::Calculator),
        0x3a => Some(KeyCode::Colon),
        0x2c => Some(KeyCode::Comma),
        0x3d => Some(KeyCode::Equals),
        0x60 => Some(KeyCode::Grave),
        0xff21 => Some(KeyCode::Kanji),
        0xffe9 => Some(KeyCode::LAlt),
        0x5b => Some(KeyCode::LBracket),
        0xffe3 => Some(KeyCode::LControl),
        0xffe1 => Some(KeyCode::LShift),
        0xffeb => Some(KeyCode::LWin),
        0x1008ff19 => Some(KeyCode::Mail),
        0x2d => Some(KeyCode::Minus),
        0x1008ff12 => Some(KeyCode::Mute),
        0x1008ff33 => Some(KeyCode::MyComputer),
        0x2e => Some(KeyCode::Period),
        0x2b => Some(KeyCode::Plus),
        0xffea => Some(KeyCode::RAlt),
        0x5d => Some(KeyCode::RBracket),
        0xffe4 => Some(KeyCode::RControl),
        0xffe2 => Some(KeyCode::RShift),
        0xffec => Some(KeyCode::RWin),
        0x3b => Some(KeyCode::Semicolon),
        0x2f => Some(KeyCode::Slash),
        0x1008ff2f => Some(KeyCode::Sleep),
        0x1008ff28 => Some(KeyCode::Stop),
        0xff09 => Some(KeyCode::Tab),
        0x1008ff11 => Some(KeyCode::VolumeDown),
        0x1008ff13 => Some(KeyCode::VolumeUp),
        0xa5 => Some(KeyCode::Yen),
        0x1008ff57 => Some(KeyCode::Copy),
        0x1008ff6d => Some(KeyCode::Paste),
        0x1008ff58 => Some(KeyCode::Cut),
        _ => None,
    };
    proof {
        if let Some(code) = res {
            lemma_keysym_of_injective(code, choose|c: KeyCode| keysym_of(c) == keysym);
        }
    }
    res
}

/// No two keys are read from the same keysym, so a keysym translates to at
/// most one key and the translation of `keysym_to_keycode` is unique.
pub proof fn lemma_keysym_of_injective(a: KeyCode, b: KeyCode)
    requires
        keysym_of(a) == keysym_of(b),
    ensures
        a == b,
{
}

/// The modifier keys as the compositor reports them for the keyboard.
#[derive(Debug, Clone, Copy, PartialEq, Eq, Structural)]
pub struct SeatModifiers {
    pub ctrl: bool,
    pub alt: bool,
    pub shift: bool,
    pub caps_lock: bool,
    pub logo: bool,
    pub num_lock: bool,
}

impl Default for SeatModifiers {
    /// No modifier key held, no lock active.
    fn default() -> (res: SeatModifiers)
        ensures
            !res.ctrl && !res.alt && !res.shift && !res.caps_lock && !res.logo && !res.num_lock,
    {
        SeatModifiers {
            ctrl: false,
            alt: false,
            shift: false,
            caps_lock: false,
            logo: false,
            num_lock: false,
        }
    }
}

/// The modifiers the program receives with a key event.
#[derive(Debug, Clone, Copy, PartialEq, Eq, Structural)]
pub struct Modifiers {
    pub shift: bool,
    pub control: bool,
    pub alt: bool,
    pub logo: bool,
}

/// The program's view of the compositor's modifiers: control, alt, shift and
/// logo carry over; the lock keys are not passed on.
pub open spec fn program_modifiers(seat: SeatModifiers) -> Modifiers {
    Modifiers { shift: seat.shift, control: seat.ctrl, alt: seat.alt, logo: seat.logo }
}

/// Builds the modifiers sent to the program from the compositor's modifiers.
pub fn to_program_modifiers(seat: &SeatModifiers) -> (res: Modifiers)
    ensures
        res == program_modifiers(*seat),
        res.shift == seat.shift,
        res.control == seat.ctrl,
        res.alt == seat.alt,
        res.logo == seat.logo,
{
    let mut res = Modifiers { shift: false, control: false, alt: false, logo: false };
    if seat.ctrl {
        res.control = true;
    }
    if seat.alt {
        res.alt = true;
    }
    if seat.shift {
        res.shift = true;
    }
    if seat.logo {
        res.logo = true;
    }
    res
}

/// A keyboard event as the program receives it.
#[derive(Debug, Clone, Copy, PartialEq, Eq, Structural)]
pub enum KeyboardEvent {
    KeyPressed { key_code: KeyCode, modifiers: Modifiers },
    KeyReleased { key_code: KeyCode, modifiers: Modifiers },
}

/// Each held modifier key carries over to the same flag of the program's
/// modifiers, and the lock keys have no effect: two seat states that differ
/// only in Caps Lock or Num Lock give the program the same modifiers.
pub proof fn lemma_program_modifiers_follow_keys(seat: SeatModifiers, other: SeatModifiers)
    ensures
        program_modifiers(seat).shift == seat.shift,
        program_modifiers(seat).control == seat.ctrl,
        program_modifiers(seat).alt == seat.alt,
        program_modifiers(seat).logo == seat.logo,
        (other.ctrl == seat.ctrl && other.alt == seat.alt && other.shift == seat.shift
            && other.logo == seat.logo) ==> program_modifiers(other) == program_modifiers(seat),
{
}

} // verus!
