use iced_layer::input::keyboard::{
    keysym_to_keycode, to_program_modifiers, KeyCode, Modifiers, SeatModifiers,
};
use xkeysym::Keysym;

#[test]
fn keysym_table_matches_xkb_keysyms() {
    assert_eq!(keysym_to_keycode(Keysym::_0.raw()), Some(KeyCode::Key0));
    assert_eq!(keysym_to_keycode(Keysym::_1.raw()), Some(KeyCode::Key1));
    assert_eq!(keysym_to_keycode(Keysym::_2.raw()), Some(KeyCode::Key2));
    assert_eq!(keysym_to_keycode(Keysym::_3.raw()), Some(KeyCode::Key3));
    assert_eq!(keysym_to_keycode(Keysym::_4.raw()), Some(KeyCode::Key4));
    assert_eq!(keysym_to_keycode(Keysym::_5.raw()), Some(KeyCode::Key5));
    assert_eq!(keysym_to_keycode(Keysym::_6.raw()), Some(KeyCode::Key6));
    assert_eq!(keysym_to_keycode(Keysym::_7.raw()), Some(KeyCode::Key7));
    assert_eq!(keysym_to_keycode(Keysym::_8.raw()), Some(KeyCode::Key8));
    assert_eq!(keysym_to_keycode(Keysym::_9.raw()), Some(KeyCode::Key9));
    assert_eq!(keysym_to_keycode(Keysym::a.raw()), Some(KeyCode::A));
    assert_eq!(keysym_to_keycode(Keysym::b.raw()), Some(KeyCode::B));
    assert_eq!(keysym_to_keycode(Keysym::c.raw()), Some(KeyCode::C));
    assert_eq!(keysym_to_keycode(Keysym::d.raw()), Some(KeyCode::D));
    assert_eq!(keysym_to_keycode(Keysym::e.raw()), Some(KeyCode::E));
    assert_eq!(keysym_to_keycode(Keysym::f.raw()), Some(KeyCode::F));
    assert_eq!(keysym_to_keycode(Keysym::g.raw()), Some(KeyCode::G));
    assert_eq!(keysym_to_keycode(Keysym::h.raw()), Some(KeyCode::H));
    assert_eq!(keysym_to_keycode(Keysym::i.raw()), Some(KeyCode::I));
    assert_eq!(keysym_to_keycode(Keysym::j.raw()), Some(KeyCode::J));
    assert_eq!(keysym_to_keycode(Keysym::k.raw()), Some(KeyCode::K));
    assert_eq!(keysym_to_keycode(Keysym::l.raw()), Some(KeyCode::L));
    assert_eq!(keysym_to_keycode(Keysym::m.raw()), Some(KeyCode::M));
    assert_eq!(keysym_to_keycode(Keysym::n.raw()), Some(KeyCode::N));
    assert_eq!(keysym_to_keycode(Keysym::o.raw()), Some(KeyCode::O));
    assert_eq!(keysym_to_keycode(Keysym::p.raw()), Some(KeyCode::P));
    assert_eq!(keysym_to_keycode(Keysym::q.raw()), Some(KeyCode::Q));
    assert_eq!(keysym_to_keycode(Keysym::r.raw()), Some(KeyCode::R));
    assert_eq!(keysym_to_keycode(Keysym::s.raw()), Some(KeyCode::S));
    assert_eq!(keysym_to_keycode(Keysym::t.raw()), Some(KeyCode::T));
    assert_eq!(keysym_to_keycode(Keysym::u.raw()), Some(KeyCode::U));
    assert_eq!(keysym_to_keycode(Keysym::v.raw()), Some(KeyCode::V));
    assert_eq!(keysym_to_keycode(Keysym::w.raw()), Some(KeyCode::W));
    assert_eq!(keysym_to_keycode(Keysym::x.raw()), Some(KeyCode::X));
    assert_eq!(keysym_to_keycode(Keysym::y.raw()), Some(KeyCode::Y));
    assert_eq!(keysym_to_keycode(Keysym::z.raw()), Some(KeyCode::Z));
    assert_eq!(keysym_to_keycode(Keysym::Escape.raw()), Some(KeyCode::Escape));
    assert_eq!(keysym_to_keycode(Keysym::F1.raw()), Some(KeyCode::F1));
    assert_eq!(keysym_to_keycode(Keysym::F2.raw()), Some(KeyCode::F2));
    assert_eq!(keysym_to_keycode(Keysym::F3.raw()), Some(KeyCode::F3));
    assert_eq!(keysym_to_keycode(Keysym::F4.raw()), Some(KeyCode::F4));
    assert_eq!(keysym_to_keycode(Keysym::F5.raw()), Some(KeyCode::F5));
    assert_eq!(keysym_to_keycode(Keysym::F6.raw()), Some(KeyCode::F6));
    assert_eq!(keysym_to_keycode(Keysym::F7.raw()), Some(KeyCode::F7));
    assert_eq!(keysym_to_keycode(Keysym::F8.raw()), Some(KeyCode::F8));
    assert_eq!(keysym_to_keycode(Keysym::F9.raw()), Some(KeyCode::F9));
    assert_eq!(keysym_to_keycode(Keysym::F10.raw()), Some(KeyCode::F10));
    assert_eq!(keysym_to_keycode(Keysym::F11.raw()), Some(KeyCode::F11));
    assert_eq!(keysym_to_keycode(Keysym::F12.raw()), Some(KeyCode::F12));
    assert_eq!(keysym_to_keycode(Keysym::F13.raw()), Some(KeyCode::F13));
    assert_eq!(keysym_to_keycode(Keysym::F14.raw()), Some(KeyCode::F14));
    assert_eq!(keysym_to_keycode(Keysym::F15.raw()), Some(KeyCode::F15));
    assert_eq!(keysym_to_keycode(Keysym::F16.raw()), Some(KeyCode::F16));
    assert_eq!(keysym_to_keycode(Keysym::F17.raw()), Some(KeyCode::F17));
    assert_eq!(keysym_to_keycode(Keysym::F18.raw()), Some(KeyCode::F18));
    assert_eq!(keysym_to_keycode(Keysym::F19.raw()), Some(KeyCode::F19));
    assert_eq!(keysym_to_keycode(Keysym::F20.raw()), Some(KeyCode::F20));
    assert_eq!(keysym_to_keycode(Keysym::F21.raw()), Some(KeyCode::F21));
    assert_eq!(keysym_to_keycode(Keysym::F22.raw()), Some(KeyCode::F22));
    assert_eq!(keysym_to_keycode(Keysym::F23.raw()), Some(KeyCode::F23));
    assert_eq!(keysym_to_keycode(Keysym::F24.raw()), Some(KeyCode::F24));
    assert_eq!(keysym_to_keycode(Keysym::Pause.raw()), Some(KeyCode::Pause));
    assert_eq!(keysym_to_keycode(Keysym::Insert.raw()), Some(KeyCode::Insert));
    assert_eq!(keysym_to_keycode(Keysym::Home.raw()), Some(KeyCode::Home));
    assert_eq!(keysym_to_keycode(Keysym::Delete.raw()), Some(KeyCode::Delete));
    assert_eq!(keysym_to_keycode(Keysym::End.raw()), Some(KeyCode::End));
    assert_eq!(keysym_to_keycode(Keysym::Page_Down.raw()), Some(KeyCode::PageDown));
    assert_eq!(keysym_to_keycode(Keysym::Page_Up.raw()), Some(KeyCode::PageUp));
    assert_eq!(keysym_to_keycode(Keysym::Left.raw()), Some(KeyCode::Left));
    assert_eq!(keysym_to_keycode(Keysym::Up.raw()), Some(KeyCode::Up));
    assert_eq!(keysym_to_keycode(Keysym::Right.raw()), Some(KeyCode::Right));
    assert_eq!(keysym_to_keycode(Keysym::Down.raw()), Some(KeyCode::Down));
    assert_eq!(keysym_to_keycode(Keysym::BackSpace.raw()), Some(KeyCode::Backspace));
    assert_eq!(keysym_to_keycode(Keysym::Return.raw()), Some(KeyCode::Enter));
    assert_eq!(keysym_to_keycode(Keysym::space.raw()), Some(KeyCode::Space));
    assert_eq!(keysym_to_keycode(Keysym::caret.raw()), Some(KeyCode::Caret));
    assert_eq!(keysym_to_keycode(Keysym::Num_Lock.raw()), Some(KeyCode::Numlock));
    assert_eq!(keysym_to_keycode(Keysym::KP_0.raw()), Some(KeyCode::Numpad0));
    assert_eq!(keysym_to_keycode(Keysym::KP_1.raw()), Some(KeyCode::Numpad1));
    assert_eq!(keysym_to_keycode(Keysym::KP_2.raw()), Some(KeyCode::Numpad2));
    assert_eq!(keysym_to_keycode(Keysym::KP_3.raw()), Some(KeyCode::Numpad3));
    assert_eq!(keysym_to_keycode(Keysym::KP_4.raw()), Some(KeyCode::Numpad4));
    assert_eq!(keysym_to_keycode(Keysym::KP_5.raw()), Some(KeyCode::Numpad5));
    assert_eq!(keysym_to_keycode(Keysym::KP_6.raw()), Some(KeyCode::Numpad6));
    assert_eq!(keysym_to_keycode(Keysym::KP_7.raw()), Some(KeyCode::Numpad7));
    assert_eq!(keysym_to_keycode(Keysym::KP_8.raw()), Some(KeyCode::Numpad8));
    assert_eq!(keysym_to_keycode(Keysym::KP_9.raw()), Some(KeyCode::Numpad9));
    assert_eq!(keysym_to_keycode(Keysym::KP_Add.raw()), Some(KeyCode::NumpadAdd));
    assert_eq!(keysym_to_keycode(Keysym::KP_Divide.raw()), Some(KeyCode::NumpadDivide));
    assert_eq!(keysym_to_keycode(Keysym::KP_Decimal.raw()), Some(KeyCode::NumpadDecimal));
    assert_eq!(keysym_to_keycode(Keysym::KP_Enter.raw()), Some(KeyCode::NumpadEnter));
    assert_eq!(keysym_to_keycode(Keysym::KP_Equal.raw()), Some(KeyCode::NumpadEquals));
    assert_eq!(keysym_to_keycode(Keysym::KP_Multiply.raw()), Some(KeyCode::NumpadMultiply));
    assert_eq!(keysym_to_keycode(Keysym::KP_Subtract.raw()), Some(KeyCode::NumpadSubtract));
    assert_eq!(keysym_to_keycode(Keysym::apostrophe.raw()), Some(KeyCode::Apostrophe));
    assert_eq!(keysym_to_keycode(Keysym::asterisk.raw()), Some(KeyCode::Asterisk));
    assert_eq!(keysym_to_keycode(Keysym::backslash.raw()), Some(KeyCode::Backslash));
    assert_eq!(keysym_to_keycode(Keysym::XF86_Calculator.raw()), Some(KeyCode::Calculator));
    assert_eq!(keysym_to_keycode(Keysym::colon.raw()), Some(KeyCode::Colon));
    assert_eq!(keysym_to_keycode(Keysym::comma.raw()), Some(KeyCode::Comma));
    assert_eq!(keysym_to_keycode(Keysym::equal.raw()), Some(KeyCode::Equals));
    assert_eq!(keysym_to_keycode(Keysym::grave.raw()), Some(KeyCode::Grave));
    assert_eq!(keysym_to_keycode(Keysym::Kanji.raw()), Some(KeyCode::Kanji));
    assert_eq!(keysym_to_keycode(Keysym::Alt_L.raw()), Some(KeyCode::LAlt));
    assert_eq!(keysym_to_keycode(Keysym::bracketleft.raw()), Some(KeyCode::LBracket));
    assert_eq!(keysym_to_keycode(Keysym::Control_L.raw()), Some(KeyCode::LControl));
    assert_eq!(keysym_to_keycode(Keysym::Shift_L.raw()), Some(KeyCode::LShift));
    assert_eq!(keysym_to_keycode(Keysym::Super_L.raw()), Some(KeyCode::LWin));
    assert_eq!(keysym_to_keycode(Keysym::XF86_Mail.raw()), Some(KeyCode::Mail));
    assert_eq!(keysym_to_keycode(Keysym::minus.raw()), Some(KeyCode::Minus));
    assert_eq!(keysym_to_keycode(Keysym::XF86_AudioMute.raw()), Some(KeyCode::Mute));
    assert_eq!(keysym_to_keycode(Keysym::XF86_MyComputer.raw()), Some(KeyCode::MyComputer));
    assert_eq!(keysym_to_keycode(Keysym::period.raw()), Some(KeyCode::Period));
    assert_eq!(keysym_to_keycode(Keysym::plus.raw()), Some(KeyCode::Plus));
    assert_eq!(keysym_to_keycode(Keysym::Alt_R.raw()), Some(KeyCode::RAlt));
    assert_eq!(keysym_to_keycode(Keysym::bracketright.raw()), Some(KeyCode::RBracket));
    assert_eq!(keysym_to_keycode(Keysym::Control_R.raw()), Some(KeyCode::RControl));
    assert_eq!(keysym_to_keycode(Keysym::Shift_R.raw()), Some(KeyCode::RShift));
    assert_eq!(keysym_to_keycode(Keysym::Super_R.raw()), Some(KeyCode::RWin));
    assert_eq!(keysym_to_keycode(Keysym::semicolon.raw()), Some(KeyCode::Semicolon));
    assert_eq!(keysym_to_keycode(Keysym::slash.raw()), Some(KeyCode::Slash));
    assert_eq!(keysym_to_keycode(Keysym::XF86_Sleep.raw()), Some(KeyCode::Sleep));
    assert_eq!(keysym_to_keycode(Keysym::XF86_Stop.raw()), Some(KeyCode::Stop));
    assert_eq!(keysym_to_keycode(Keysym::Tab.raw()), Some(KeyCode::Tab));
    assert_eq!(keysym_to_keycode(Keysym::XF86_AudioLowerVolume.raw()), Some(KeyCode::VolumeDown));
    assert_eq!(keysym_to_keycode(Keysym::XF86_AudioRaiseVolume.raw()), Some(KeyCode::VolumeUp));
    assert_eq!(keysym_to_keycode(Keysym::yen.raw()), Some(KeyCode::Yen));
    assert_eq!(keysym_to_keycode(Keysym::XF86_Copy.raw()), Some(KeyCode::Copy));
    assert_eq!(keysym_to_keycode(Keysym::XF86_Paste.raw()), Some(KeyCode::Paste));
    assert_eq!(keysym_to_keycode(Keysym::XF86_Cut.raw()), Some(KeyCode::Cut));
}

#[test]
fn keysyms_without_a_key_are_dropped() {
    assert_eq!(keysym_to_keycode(Keysym::Multi_key.raw()), None);
    assert_eq!(keysym_to_keycode(Keysym::KP_Separator.raw()), None);
    assert_eq!(keysym_to_keycode(Keysym::A.raw()), None);
    assert_eq!(keysym_to_keycode(Keysym::NoSymbol.raw()), None);
    assert_eq!(keysym_to_keycode(0xffff_ffff), None);
}

#[test]
fn distinct_keysyms_give_distinct_keys() {
    let mut seen: Vec<KeyCode> = Vec::new();
    for raw in 0u32..0x1_0000 {
        if let Some(code) = keysym_to_keycode(raw) {
            assert!(!seen.contains(&code));
            seen.push(code);
        }
    }
    for raw in 0x1008_ff00u32..0x1009_0000 {
        if let Some(code) = keysym_to_keycode(raw) {
            assert!(!seen.contains(&code));
            seen.push(code);
        }
    }
    assert_eq!(seen.len(), 130);
}

#[test]
fn lock_keys_are_not_passed_on() {
    let seat = SeatModifiers {
        ctrl: true,
        alt: false,
        shift: true,
        caps_lock: true,
        logo: false,
        num_lock: true,
    };
    assert_eq!(
        to_program_modifiers(&seat),
        Modifiers { shift: true, control: true, alt: false, logo: false }
    );
    let seat = SeatModifiers {
        ctrl: false,
        alt: true,
        shift: false,
        caps_lock: false,
        logo: true,
        num_lock: false,
    };
    assert_eq!(
        to_program_modifiers(&seat),
        Modifiers { shift: false, control: false, alt: true, logo: true }
    );
}

#[test]
fn default_modifiers_are_released() {
    let seat = SeatModifiers::default();
    assert_eq!(
        to_program_modifiers(&seat),
        Modifiers { shift: false, control: false, alt: false, logo: false }
    );
    assert!(!seat.caps_lock && !seat.num_lock);
}
