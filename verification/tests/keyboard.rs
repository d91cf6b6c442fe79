use winit_toyos::keyboard::{convert_hid_keycode, KeyCode, NamedKey, PhysicalKey};

#[test]
fn letters_map_to_key_positions() {
    assert_eq!(convert_hid_keycode(0x04), (PhysicalKey::Code(KeyCode::KeyA), None));
    assert_eq!(convert_hid_keycode(0x1D), (PhysicalKey::Code(KeyCode::KeyZ), None));
}

#[test]
fn digits_run_one_to_zero() {
    assert_eq!(convert_hid_keycode(0x1E), (PhysicalKey::Code(KeyCode::Digit1), None));
    assert_eq!(convert_hid_keycode(0x27), (PhysicalKey::Code(KeyCode::Digit0), None));
}

#[test]
fn named_keys_carry_their_name() {
    assert_eq!(
        convert_hid_keycode(0x28),
        (PhysicalKey::Code(KeyCode::Enter), Some(NamedKey::Enter))
    );
    assert_eq!(
        convert_hid_keycode(0x58),
        (PhysicalKey::Code(KeyCode::NumpadEnter), Some(NamedKey::Enter))
    );
    assert_eq!(convert_hid_keycode(0x45), (PhysicalKey::Code(KeyCode::F12), Some(NamedKey::F12)));
    assert_eq!(
        convert_hid_keycode(0xE6),
        (PhysicalKey::Code(KeyCode::AltRight), Some(NamedKey::AltGraph))
    );
    assert_eq!(
        convert_hid_keycode(0xE3),
        (PhysicalKey::Code(KeyCode::MetaLeft), Some(NamedKey::Meta))
    );
}

#[test]
fn space_and_symbols_have_no_name() {
    assert_eq!(convert_hid_keycode(0x2C), (PhysicalKey::Code(KeyCode::Space), None));
    assert_eq!(convert_hid_keycode(0x35), (PhysicalKey::Code(KeyCode::Backquote), None));
}

#[test]
fn unknown_usages_are_unidentified() {
    assert_eq!(convert_hid_keycode(0x00), (PhysicalKey::Unidentified, None));
    assert_eq!(convert_hid_keycode(0x32), (PhysicalKey::Unidentified, None));
    assert_eq!(convert_hid_keycode(0x64), (PhysicalKey::Unidentified, None));
    assert_eq!(convert_hid_keycode(0xE8), (PhysicalKey::Unidentified, None));
    assert_eq!(convert_hid_keycode(0xFF), (PhysicalKey::Unidentified, None));
}

#[test]
fn distinct_usages_give_distinct_positions() {
    let mut seen: Vec<(u8, KeyCode)> = Vec::new();
    for k in 0..=255u8 {
        if let (PhysicalKey::Code(code), _) = convert_hid_keycode(k) {
            assert!(seen.iter().all(|(_, c)| *c != code), "usage {k:#x} repeats a position");
            seen.push((k, code));
        }
    }
    assert_eq!(seen.len(), 103);
}

#[test]
fn named_usages_are_identified() {
    for k in 0..=255u8 {
        let (physical, named) = convert_hid_keycode(k);
        if named.is_some() {
            assert_ne!(physical, PhysicalKey::Unidentified);
        }
    }
}
