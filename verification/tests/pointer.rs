use iced_layer::input::pointer::{
    button_to_mouse_button, pointer_frame, translate_pointer_event, AxisSource, MouseButton,
    MouseEvent, PointerInput, PointerKind, ScrollDelta, BTN_LEFT, BTN_MIDDLE, BTN_RIGHT,
};

fn on(kind: PointerKind) -> PointerInput {
    PointerInput { on_surface: true, kind }
}

fn off(kind: PointerKind) -> PointerInput {
    PointerInput { on_surface: false, kind }
}

#[test]
fn buttons_map_to_program_buttons() {
    assert_eq!(BTN_LEFT, 0x110);
    assert_eq!(BTN_RIGHT, 0x111);
    assert_eq!(BTN_MIDDLE, 0x112);
    assert_eq!(button_to_mouse_button(0x110), Some(MouseButton::Left));
    assert_eq!(button_to_mouse_button(0x111), Some(MouseButton::Right));
    assert_eq!(button_to_mouse_button(0x112), Some(MouseButton::Middle));
    assert_eq!(button_to_mouse_button(0x113), Some(MouseButton::Other(0x113)));
    assert_eq!(button_to_mouse_button(0xffff), Some(MouseButton::Other(0xffff)));
    assert_eq!(button_to_mouse_button(0x1_0000), None);
}

#[test]
fn each_kind_translates() {
    assert_eq!(translate_pointer_event(&on(PointerKind::Enter)), Some(MouseEvent::CursorEntered));
    assert_eq!(translate_pointer_event(&on(PointerKind::Leave)), Some(MouseEvent::CursorLeft));
    assert_eq!(translate_pointer_event(&on(PointerKind::Motion)), Some(MouseEvent::CursorMoved));
    assert_eq!(
        translate_pointer_event(&on(PointerKind::Press { button: 0x110 })),
        Some(MouseEvent::ButtonPressed(MouseButton::Left))
    );
    assert_eq!(
        translate_pointer_event(&on(PointerKind::Release { button: 0x111 })),
        Some(MouseEvent::ButtonReleased(MouseButton::Right))
    );
    assert_eq!(translate_pointer_event(&on(PointerKind::Press { button: 0x2_0000 })), None);
}

#[test]
fn scroll_sources_choose_lines_or_pixels() {
    let axis = |source| on(PointerKind::Axis { source: Some(source), discrete_x: 2, discrete_y: -1 });
    assert_eq!(
        translate_pointer_event(&axis(AxisSource::Wheel)),
        Some(MouseEvent::WheelScrolled(ScrollDelta::Lines { x: 2, y: -1 }))
    );
    assert_eq!(
        translate_pointer_event(&axis(AxisSource::WheelTilt)),
        Some(MouseEvent::WheelScrolled(ScrollDelta::Lines { x: 2, y: -1 }))
    );
    assert_eq!(
        translate_pointer_event(&axis(AxisSource::Finger)),
        Some(MouseEvent::WheelScrolled(ScrollDelta::Pixels))
    );
    assert_eq!(
        translate_pointer_event(&axis(AxisSource::Continuous)),
        Some(MouseEvent::WheelScrolled(ScrollDelta::Pixels))
    );
    assert_eq!(translate_pointer_event(&axis(AxisSource::Other)), None);
}

#[test]
fn events_on_other_surfaces_are_dropped() {
    assert_eq!(translate_pointer_event(&off(PointerKind::Enter)), None);
    assert_eq!(translate_pointer_event(&off(PointerKind::Motion)), None);
    let unnamed = off(PointerKind::Axis { source: None, discrete_x: 0, discrete_y: 0 });
    assert_eq!(translate_pointer_event(&unnamed), None);
    let frame = pointer_frame(&vec![off(PointerKind::Motion), off(PointerKind::Leave)]);
    assert!(frame.events.is_empty());
    assert_eq!(frame.last_motion, None);
}

#[test]
fn frame_keeps_order_and_finds_last_motion() {
    let inputs = vec![
        on(PointerKind::Enter),
        on(PointerKind::Motion),
        off(PointerKind::Motion),
        on(PointerKind::Press { button: 0x110 }),
        on(PointerKind::Motion),
        on(PointerKind::Axis { source: Some(AxisSource::Other), discrete_x: 1, discrete_y: 1 }),
        off(PointerKind::Press { button: 0x111 }),
        on(PointerKind::Release { button: 0x110 }),
    ];
    let frame = pointer_frame(&inputs);
    assert_eq!(
        frame.events,
        vec![
            (0, MouseEvent::CursorEntered),
            (1, MouseEvent::CursorMoved),
            (3, MouseEvent::ButtonPressed(MouseButton::Left)),
            (4, MouseEvent::CursorMoved),
            (7, MouseEvent::ButtonReleased(MouseButton::Left)),
        ]
    );
    assert_eq!(frame.last_motion, Some(4));
}

#[test]
fn empty_frame_changes_nothing() {
    let frame = pointer_frame(&Vec::new());
    assert!(frame.events.is_empty());
    assert_eq!(frame.last_motion, None);
}
