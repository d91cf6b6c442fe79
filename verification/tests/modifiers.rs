use winit_toyos::keyboard::{KeyCode, PhysicalKey};
use winit_toyos::modifiers::{
    EventState, KeyboardModifierState, LCTRL, LSHIFT, RCTRL, RMETA, RSHIFT, STATE_CONTROL,
    STATE_META, STATE_SHIFT,
};

#[test]
fn nothing_held_at_first() {
    let es = EventState::default();
    assert_eq!(es.keyboard.bits, 0);
    assert_eq!(es.mouse.bits, 0);
    let m = es.modifiers();
    assert_eq!(m.state.bits, 0);
    assert_eq!(m.pressed_mods.bits, 0);
}

#[test]
fn shift_keys_set_their_own_bits() {
    let mut es = EventState::new();
    es.key(PhysicalKey::Code(KeyCode::ShiftLeft), true);
    assert_eq!(es.keyboard.bits, LSHIFT);
    es.key(PhysicalKey::Code(KeyCode::ShiftRight), true);
    assert_eq!(es.keyboard.bits, LSHIFT | RSHIFT);
    es.key(PhysicalKey::Code(KeyCode::ShiftLeft), false);
    assert_eq!(es.keyboard.bits, RSHIFT);
    let m = es.modifiers();
    assert_eq!(m.state.bits, STATE_SHIFT);
    assert_eq!(m.pressed_mods.bits, RSHIFT);
}

#[test]
fn modifiers_combine() {
    let mut es = EventState::new();
    es.key(PhysicalKey::Code(KeyCode::ControlRight), true);
    es.key(PhysicalKey::Code(KeyCode::MetaRight), true);
    es.key(PhysicalKey::Code(KeyCode::ShiftLeft), true);
    assert_eq!(es.keyboard.bits, RCTRL | RMETA | LSHIFT);
    let m = es.modifiers();
    assert_eq!(m.state.bits, STATE_SHIFT | STATE_CONTROL | STATE_META);
    assert_eq!(m.state.bits, 0x004 | 0x020 | 0x800);
    assert_eq!(m.pressed_mods.bits, 0x08 | 0x80 | 0x01);
}

#[test]
fn alt_right_sets_alt_state() {
    let mut es = EventState::new();
    es.key(PhysicalKey::Code(KeyCode::AltRight), true);
    assert_eq!(es.keyboard.bits, 0x20);
    assert_eq!(es.modifiers().state.bits, 0x100);
}

#[test]
fn other_keys_leave_modifiers_alone() {
    let mut es = EventState::new();
    es.key(PhysicalKey::Code(KeyCode::ControlLeft), true);
    es.key(PhysicalKey::Code(KeyCode::KeyA), true);
    es.key(PhysicalKey::Code(KeyCode::CapsLock), false);
    es.key(PhysicalKey::Unidentified, false);
    assert_eq!(es.keyboard.bits, LCTRL);
}

#[test]
fn press_then_release_restores() {
    let mut es = EventState::new();
    es.key(PhysicalKey::Code(KeyCode::ControlLeft), true);
    let before = es.keyboard;
    es.key(PhysicalKey::Code(KeyCode::MetaRight), true);
    es.key(PhysicalKey::Code(KeyCode::MetaRight), false);
    assert_eq!(es.keyboard, before);
}

#[test]
fn flag_operations() {
    let mut k = KeyboardModifierState::empty();
    k.set(0x05, true);
    assert!(k.contains(0x01));
    assert!(k.contains(0x05));
    assert!(!k.contains(0x03));
    assert!(k.intersects(0x03));
    assert!(!k.intersects(0x0A));
    k.set(0x01, false);
    assert_eq!(k.bits, 0x04);
}
