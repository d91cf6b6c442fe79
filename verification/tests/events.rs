use smol_str::SmolStr;
use winit_toyos::event::{
    element_state, ElementState, Key, KeyPress, MouseButton, MouseEvent, MouseEventKind,
    WindowEvent,
};
use winit_toyos::event_loop::{process_key_event, process_mouse_event};
use winit_toyos::keyboard::{KeyCode, NamedKey, PhysicalKey};
use winit_toyos::modifiers::{EventState, Modifiers, ModifiersKeys, ModifiersState};
use winit_toyos::text::lowercase;

fn press(keycode: u8, pressed: bool, text: &str) -> KeyPress {
    KeyPress { keycode, pressed, text: text.to_string() }
}

fn key_event(ev: &WindowEvent) -> &winit_toyos::event::KeyEvent {
    match ev {
        WindowEvent::KeyboardInput { event, is_synthetic } => {
            assert!(!is_synthetic);
            event
        },
        other => panic!("not a keyboard event: {other:?}"),
    }
}

#[test]
fn element_states() {
    assert_eq!(element_state(true), ElementState::Pressed);
    assert_eq!(element_state(false), ElementState::Released);
}

#[test]
fn letter_press_types_text() {
    let mut es = EventState::new();
    let events = process_key_event(&press(0x04, true, "a"), &mut es);
    assert_eq!(events.len(), 1);
    let ev = key_event(&events[0]);
    assert_eq!(ev.physical_key, PhysicalKey::Code(KeyCode::KeyA));
    assert_eq!(ev.logical_key, Key::Character(SmolStr::new("a")));
    assert_eq!(ev.key_without_modifiers, Key::Character(SmolStr::new("a")));
    assert_eq!(ev.state, ElementState::Pressed);
    assert!(!ev.repeat);
    assert_eq!(ev.text.as_ref().map(|s| s.as_str()), Some("a"));
    assert_eq!(ev.text_with_all_modifiers.as_ref().map(|s| s.as_str()), Some("a"));
    assert_eq!(es.keyboard.bits, 0);
}

#[test]
fn shifted_letter_lowercases_without_modifiers() {
    let mut es = EventState::new();
    let events = process_key_event(&press(0x04, true, "A"), &mut es);
    let ev = key_event(&events[0]);
    assert_eq!(ev.logical_key, Key::Character(SmolStr::new("A")));
    assert_eq!(ev.key_without_modifiers, Key::Character(SmolStr::new("a")));
    assert_eq!(ev.text.as_ref().map(|s| s.as_str()), Some("A"));
}

#[test]
fn release_types_no_text() {
    let mut es = EventState::new();
    let events = process_key_event(&press(0x04, false, "A"), &mut es);
    let ev = key_event(&events[0]);
    assert_eq!(ev.state, ElementState::Released);
    assert_eq!(ev.logical_key, Key::Character(SmolStr::new("A")));
    assert_eq!(ev.text, None);
    assert_eq!(ev.text_with_all_modifiers, None);
}

#[test]
fn named_key_wins_over_text() {
    let mut es = EventState::new();
    let events = process_key_event(&press(0x28, true, "\r"), &mut es);
    let ev = key_event(&events[0]);
    assert_eq!(ev.logical_key, Key::Named(NamedKey::Enter));
    assert_eq!(ev.key_without_modifiers, Key::Named(NamedKey::Enter));
    assert_eq!(ev.text.as_ref().map(|s| s.as_str()), Some("\r"));
}

#[test]
fn silent_unnamed_key_is_unidentified() {
    let mut es = EventState::new();
    let events = process_key_event(&press(0x2C, true, ""), &mut es);
    let ev = key_event(&events[0]);
    assert_eq!(ev.physical_key, PhysicalKey::Code(KeyCode::Space));
    assert_eq!(ev.logical_key, Key::Unidentified);
    assert_eq!(ev.key_without_modifiers, Key::Unidentified);
    assert_eq!(ev.text, None);
}

#[test]
fn unknown_usage_reports_unidentified_position() {
    let mut es = EventState::new();
    let events = process_key_event(&press(0x32, true, "#"), &mut es);
    let ev = key_event(&events[0]);
    assert_eq!(ev.physical_key, PhysicalKey::Unidentified);
    assert_eq!(ev.logical_key, Key::Character(SmolStr::new("#")));
}

#[test]
fn modifier_key_reports_new_modifiers() {
    let mut es = EventState::new();
    let events = process_key_event(&press(0xE1, true, ""), &mut es);
    assert_eq!(events.len(), 2);
    let ev = key_event(&events[0]);
    assert_eq!(ev.logical_key, Key::Named(NamedKey::Shift));
    assert_eq!(
        events[1],
        WindowEvent::ModifiersChanged(Modifiers {
            state: ModifiersState { bits: 0x004 },
            pressed_mods: ModifiersKeys { bits: 0x01 },
        })
    );
    // A second press of a held key changes nothing.
    let again = process_key_event(&press(0xE1, true, ""), &mut es);
    assert_eq!(again.len(), 1);
    let released = process_key_event(&press(0xE1, false, ""), &mut es);
    assert_eq!(released.len(), 2);
    assert_eq!(
        released[1],
        WindowEvent::ModifiersChanged(Modifiers {
            state: ModifiersState { bits: 0 },
            pressed_mods: ModifiersKeys { bits: 0 },
        })
    );
}

#[test]
fn lowercasing_goes_char_by_char() {
    assert_eq!(lowercase("ÀBc"), "àbc");
    // Each character on its own: a final capital sigma lowercases to the medial form.
    assert_eq!(lowercase("ΟΔΟΣ"), "οδοσ");
    assert_eq!(lowercase("İ"), "i\u{307}");
    assert_eq!(lowercase(""), "");
}

#[test]
fn lowercase_key_without_modifiers_multichar() {
    let mut es = EventState::new();
    let events = process_key_event(&press(0x0C, true, "İ"), &mut es);
    let ev = key_event(&events[0]);
    assert_eq!(ev.key_without_modifiers, Key::Character(SmolStr::new("i\u{307}")));
}

fn mouse(event_type: MouseEventKind, changed: u8) -> MouseEvent {
    MouseEvent { event_type, x: 10, y: -3, changed, scroll: 0 }
}

#[test]
fn mouse_move() {
    let mut es = EventState::new();
    assert_eq!(
        process_mouse_event(mouse(MouseEventKind::Move, 0), &mut es),
        Some(WindowEvent::PointerMoved { x: 10, y: -3 })
    );
    assert_eq!(es.mouse.bits, 0);
}

#[test]
fn mouse_buttons_press_and_release() {
    let mut es = EventState::new();
    assert_eq!(
        process_mouse_event(mouse(MouseEventKind::Press, 0x02), &mut es),
        Some(WindowEvent::PointerButton {
            state: ElementState::Pressed,
            x: 10,
            y: -3,
            button: MouseButton::Right,
        })
    );
    assert_eq!(es.mouse.bits, 0x04);
    assert_eq!(
        process_mouse_event(mouse(MouseEventKind::Press, 0x04), &mut es),
        Some(WindowEvent::PointerButton {
            state: ElementState::Pressed,
            x: 10,
            y: -3,
            button: MouseButton::Middle,
        })
    );
    assert_eq!(es.mouse.bits, 0x06);
    assert_eq!(
        process_mouse_event(mouse(MouseEventKind::Release, 0x02), &mut es),
        Some(WindowEvent::PointerButton {
            state: ElementState::Released,
            x: 10,
            y: -3,
            button: MouseButton::Right,
        })
    );
    assert_eq!(es.mouse.bits, 0x02);
}

#[test]
fn several_buttons_count_as_left() {
    let mut es = EventState::new();
    assert_eq!(
        process_mouse_event(mouse(MouseEventKind::Press, 0x03), &mut es),
        Some(WindowEvent::PointerButton {
            state: ElementState::Pressed,
            x: 10,
            y: -3,
            button: MouseButton::Left,
        })
    );
    assert_eq!(es.mouse.bits, 0x05);
    assert_eq!(
        process_mouse_event(mouse(MouseEventKind::Release, 0x00), &mut es),
        Some(WindowEvent::PointerButton {
            state: ElementState::Released,
            x: 10,
            y: -3,
            button: MouseButton::Left,
        })
    );
    assert_eq!(es.mouse.bits, 0x05);
}

#[test]
fn mouse_scroll_and_other() {
    let mut es = EventState::new();
    let scroll = MouseEvent { event_type: MouseEventKind::Scroll, x: 0, y: 0, changed: 0, scroll: -2 };
    assert_eq!(process_mouse_event(scroll, &mut es), Some(WindowEvent::MouseWheel { lines_y: -2 }));
    assert_eq!(process_mouse_event(mouse(MouseEventKind::Other, 0x01), &mut es), None);
    assert_eq!(es.mouse.bits, 0);
}

#[test]
fn mouse_leaves_keyboard_alone() {
    let mut es = EventState::new();
    process_key_event(&press(0xE0, true, ""), &mut es);
    process_mouse_event(mouse(MouseEventKind::Press, 0x01), &mut es);
    assert_eq!(es.keyboard.bits, 0x04);
    assert_eq!(es.mouse.bits, 0x01);
}
