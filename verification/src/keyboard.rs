use vstd::prelude::*;

verus! {

/// A physical key position, named after the key it carries on a US keyboard layout.
#[derive(Clone, Copy, Debug, PartialEq, Eq, Hash, Structural)]
pub enum KeyCode {
    KeyA,
    KeyB,
    KeyC,
    KeyD,
    KeyE,
    KeyF,
    KeyG,
    KeyH,
    KeyI,
    KeyJ,
    KeyK,
    KeyL,
    KeyM,
    KeyN,
    KeyO,
    KeyP,
    KeyQ,
    KeyR,
    KeyS,
    KeyT,
    KeyU,
    KeyV,
    KeyW,
    KeyX,
    KeyY,
    KeyZ,
    Digit1,
    Digit2,
    Digit3,
    Digit4,
    Digit5,
    Digit6,
    Digit7,
    Digit8,
    Digit9,
    Digit0,
    Enter,
    Escape,
    Backspace,
    Tab,
    Space,
    Minus,
    Equal,
    BracketLeft,
    BracketRight,
    Backslash,
    Semicolon,
    Quote,
    Backquote,
    Comma,
    Period,
    Slash,
    CapsLock,
    F1,
    F2,
    F3,
    F4,
    F5,
    F6,
    F7,
    F8,
    F9,
    F10,
    F11,
    F12,
    PrintScreen,
    ScrollLock,
    Pause,
    Insert,
    Home,
    PageUp,
    Delete,
    End,
    PageDown,
    ArrowRight,
    ArrowLeft,
    ArrowDown,
    ArrowUp,
    NumLock,
    NumpadDivide,
    NumpadMultiply,
    NumpadSubtract,
    NumpadAdd,
    NumpadEnter,
    Numpad1,
    Numpad2,
    Numpad3,
    Numpad4,
    Numpad5,
    Numpad6,
    Numpad7,
    Numpad8,
    Numpad9,
    Numpad0,
    NumpadDecimal,
    ControlLeft,
    ShiftLeft,
    AltLeft,
    MetaLeft,
    ControlRight,
    ShiftRight,
    AltRight,
    MetaRight,
}

/// A logical key that has a name rather than a printable character.
#[derive(Clone, Copy, Debug, PartialEq, Eq, Hash, Structural)]
pub enum NamedKey {
    Enter,
    Escape,
    Backspace,
    Tab,
    CapsLock,
    F1,
    F2,
    F3,
    F4,
    F5,
    F6,
    F7,
    F8,
    F9,
    F10,
    F11,
    F12,
    PrintScreen,
    ScrollLock,
    Pause,
    Insert,
    Home,
    PageUp,
    Delete,
    End,
    PageDown,
    ArrowRight,
    ArrowLeft,
    ArrowDown,
    ArrowUp,
    NumLock,
    Control,
    Shift,
    Alt,
    Meta,
    AltGraph,
}

/// The key identified by its physical position, or no identification at all.
#[derive(Clone, Copy, Debug, PartialEq, Eq, Hash, Structural)]
pub enum PhysicalKey {
    /// The key at this position.
    Code(KeyCode),
    /// A key whose HID usage has no known position.
    Unidentified,
}

/// The key position of a USB HID keyboard usage, for the usages the platform reports.
pub open spec fn hid_key_code(keycode: u8) -> Option<KeyCode> {
    match keycode {
        0x04 => Some(KeyCode::KeyA),
        0x05 => Some(KeyCode::KeyB),
        0x06 => Some(KeyCode::KeyC),
        0x07 => Some(KeyCode::KeyD),
        0x08 => Some(KeyCode::KeyE),
        0x09 => Some(KeyCode::KeyF),
        0x0A => Some(KeyCode::KeyG),
        0x0B => Some(KeyCode::KeyH),
        0x0C => Some(KeyCode::KeyI),
        0x0D => Some(KeyCode::KeyJ),
        0x0E => Some(KeyCode::KeyK),
        0x0F => Some(KeyCode::KeyL),
        0x10 => Some(KeyCode::KeyM),
        0x11 => Some(KeyCode::KeyN),
        0x12 => Some(KeyCode::KeyO),
        0x13 => Some(KeyCode::KeyP),
        0x14 => Some(KeyCode::KeyQ),
        0x15 => Some(KeyCode::KeyR),
        0x16 => Some(KeyCode::KeyS),
        0x17 => Some(KeyCode::KeyT),
        0x18 => Some(KeyCode::KeyU),
        0x19 => Some(KeyCode::KeyV),
        0x1A => Some(KeyCode::KeyW),
        0x1B => Some(KeyCode::KeyX),
        0x1C => Some(KeyCode::KeyY),
        0x1D => Some(KeyCode::KeyZ),
        0x1E => Some(KeyCode::Digit1),
        0x1F => Some(KeyCode::Digit2),
        0x20 => Some(KeyCode::Digit3),
        0x21 => Some(KeyCode::Digit4),
        0x22 => Some(KeyCode::Digit5),
        0x23 => Some(KeyCode::Digit6),
        0x24 => Some(KeyCode::Digit7),
        0x25 => Some(KeyCode::Digit8),
        0x26 => Some(KeyCode::Digit9),
        0x27 => Some(KeyCode::Digit0),
        0x28 => Some(KeyCode::Enter),
        0x29 => Some(KeyCode::Escape),
        0x2A => Some(KeyCode::Backspace),
        0x2B => Some(KeyCode::Tab),
        0x2C => Some(KeyCode::Space),
        0x2D => Some(KeyCode::Minus),
        0x2E => Some(KeyCode::Equal),
        0x2F => Some(KeyCode::BracketLeft),
        0x30 => Some(KeyCode::BracketRight),
        0x31 => Some(KeyCode::Backslash),
        0x33 => Some(KeyCode::Semicolon),
        0x34 => Some(KeyCode::Quote),
        0x35 => Some(KeyCode::Backquote),
        0x36 => Some(KeyCode::Comma),
        0x37 => Some(KeyCode::Period),
        0x38 => Some(KeyCode::Slash),
        0x39 => Some(KeyCode::CapsLock),
        0x3A => Some(KeyCode::F1),
        0x3B => Some(KeyCode::F2),
        0x3C => Some(KeyCode::F3),
        0x3D => Some(KeyCode::F4),
        0x3E => Some(KeyCode::F5),
        0x3F => Some(KeyCode::F6),
        0x40 => Some(KeyCode::F7),
        0x41 => Some(KeyCode::F8),
        0x42 => Some(KeyCode::F9),
        0x43 => Some(KeyCode::F10),
        0x44 => Some(KeyCode::F11),
        0x45 => Some(KeyCode::F12),
        0x46 => Some(KeyCode::PrintScreen),
        0x47 => Some(KeyCode::ScrollLock),
        0x48 => Some(KeyCode::Pause),
        0x49 => Some(KeyCode::Insert),
        0x4A => Some(KeyCode::Home),
        0x4B => Some(KeyCode::PageUp),
        0x4C => Some(KeyCode::Delete),
        0x4D => Some(KeyCode::End),
        0x4E => Some(KeyCode::PageDown),
        0x4F => Some(KeyCode::ArrowRight),
        0x50 => Some(KeyCode::ArrowLeft),
        0x51 => Some(KeyCode::ArrowDown),
        0x52 => Some(KeyCode::ArrowUp),
        0x53 => Some(KeyCode::NumLock),
        0x54 => Some(KeyCode::NumpadDivide),
        0x55 => Some(KeyCode::NumpadMultiply),
        0x56 => Some(KeyCode::NumpadSubtract),
        0x57 => Some(KeyCode::NumpadAdd),
        0x58 => Some(KeyCode::NumpadEnter),
        0x59 => Some(KeyCode::Numpad1),
        0x5A => Some(KeyCode::Numpad2),
        0x5B => Some(KeyCode::Numpad3),
        0x5C => Some(KeyCode::Numpad4),
        0x5D => Some(KeyCode::Numpad5),
        0x5E => Some(KeyCode::Numpad6),
        0x5F => Some(KeyCode::Numpad7),
        0x60 => Some(KeyCode::Numpad8),
        0x61 => Some(KeyCode::Numpad9),
        0x62 => Some(KeyCode::Numpad0),
        0x63 => Some(KeyCode::NumpadDecimal),
        0xE0 => Some(KeyCode::ControlLeft),
        0xE1 => Some(KeyCode::ShiftLeft),
        0xE2 => Some(KeyCode::AltLeft),
        0xE3 => Some(KeyCode::MetaLeft),
        0xE4 => Some(KeyCode::ControlRight),
        0xE5 => Some(KeyCode::ShiftRight),
        0xE6 => Some(KeyCode::AltRight),
        0xE7 => Some(KeyCode::MetaRight),
        _ => None,
    }
}

/// The named logical key of a USB HID keyboard usage, where the key has a name.
pub open spec fn hid_named_key(keycode: u8) -> Option<NamedKey> {
    match keycode {
        0x28 => Some(NamedKey::Enter),
        0x29 => Some(NamedKey::Escape),
        0x2A => Some(NamedKey::Backspace),
        0x2B => Some(NamedKey::Tab),
        0x39 => Some(NamedKey::CapsLock),
        0x3A => Some(NamedKey::F1),
        0x3B => Some(NamedKey::F2),
        0x3C => Some(NamedKey::F3),
        0x3D => Some(NamedKey::F4),
        0x3E => Some(NamedKey::F5),
        0x3F => Some(NamedKey::F6),
        0x40 => Some(NamedKey::F7),
        0x41 => Some(NamedKey::F8),
        0x42 => Some(NamedKey::F9),
        0x43 => Some(NamedKey::F10),
        0x44 => Some(NamedKey::F11),
        0x45 => Some(NamedKey::F12),
        0x46 => Some(NamedKey::PrintScreen),
        0x47 => Some(NamedKey::ScrollLock),
        0x48 => Some(NamedKey::Pause),
        0x49 => Some(NamedKey::Insert),
        0x4A => Some(NamedKey::Home),
        0x4B => Some(NamedKey::PageUp),
        0x4C => Some(NamedKey::Delete),
        0x4D => Some(NamedKey::End),
        0x4E => Some(NamedKey::PageDown),
        0x4F => Some(NamedKey::ArrowRight),
        0x50 => Some(NamedKey::ArrowLeft),
        0x51 => Some(NamedKey::ArrowDown),
        0x52 => Some(NamedKey::ArrowUp),
        0x53 => Some(NamedKey::NumLock),
        0x58 => Some(NamedKey::Enter),
        0xE0 => Some(NamedKey::Control),
        0xE1 => Some(NamedKey::Shift),
        0xE2 => Some(NamedKey::Alt),
        0xE3 => Some(NamedKey::Meta),
        0xE4 => Some(NamedKey::Control),
        0xE5 => Some(NamedKey::Shift),
        0xE6 => Some(NamedKey::AltGraph),
        0xE7 => Some(NamedKey::Meta),
        _ => None,
    }
}

/// The physical key reported for a USB HID keyboard usage.
pub open spec fn hid_physical_key(keycode: u8) -> PhysicalKey {
    match hid_key_code(keycode) {
        Some(code) => PhysicalKey::Code(code),
        None => PhysicalKey::Unidentified,
    }
}

/// The USB HID usage that reports a key position.
pub open spec fn key_code_hid(code: KeyCode) -> u8 {
    match code {
        KeyCode::KeyA => 0x04,
        KeyCode::KeyB => 0x05,
        KeyCode::KeyC => 0x06,
        KeyCode::KeyD => 0x07,
        KeyCode::KeyE => 0x08,
        KeyCode::KeyF => 0x09,
        KeyCode::KeyG => 0x0A,
        KeyCode::KeyH => 0x0B,
        KeyCode::KeyI => 0x0C,
        KeyCode::KeyJ => 0x0D,
        KeyCode::KeyK => 0x0E,
        KeyCode::KeyL => 0x0F,
        KeyCode::KeyM => 0x10,
        KeyCode::KeyN => 0x11,
        KeyCode::KeyO => 0x12,
        KeyCode::KeyP => 0x13,
        KeyCode::KeyQ => 0x14,
        KeyCode::KeyR => 0x15,
        KeyCode::KeyS => 0x16,
        KeyCode::KeyT => 0x17,
        KeyCode::KeyU => 0x18,
        KeyCode::KeyV => 0x19,
        KeyCode::KeyW => 0x1A,
        KeyCode::KeyX => 0x1B,
        KeyCode::KeyY => 0x1C,
        KeyCode::KeyZ => 0x1D,
        KeyCode::Digit1 => 0x1E,
        KeyCode::Digit2 => 0x1F,
        KeyCode::Digit3 => 0x20,
        KeyCode::Digit4 => 0x21,
        KeyCode::Digit5 => 0x22,
        KeyCode::Digit6 => 0x23,
        KeyCode::Digit7 => 0x24,
        KeyCode::Digit8 => 0x25,
        KeyCode::Digit9 => 0x26,
        KeyCode::Digit0 => 0x27,
        KeyCode::Enter => 0x28,
        KeyCode::Escape => 0x29,
        KeyCode::Backspace => 0x2A,
        KeyCode::Tab => 0x2B,
        KeyCode::Space => 0x2C,
        KeyCode::Minus => 0x2D,
        KeyCode::Equal => 0x2E,
        KeyCode::BracketLeft => 0x2F,
        KeyCode::BracketRight => 0x30,
        KeyCode::Backslash => 0x31,
        KeyCode::Semicolon => 0x33,
        KeyCode::Quote => 0x34,
        KeyCode::Backquote => 0x35,
        KeyCode::Comma => 0x36,
        KeyCode::Period => 0x37,
        KeyCode::Slash => 0x38,
        KeyCode::CapsLock => 0x39,
        KeyCode::F1 => 0x3A,
        KeyCode::F2 => 0x3B,
        KeyCode::F3 => 0x3C,
        KeyCode::F4 => 0x3D,
        KeyCode::F5 => 0x3E,
        KeyCode::F6 => 0x3F,
        KeyCode::F7 => 0x40,
        KeyCode::F8 => 0x41,
        KeyCode::F9 => 0x42,
        KeyCode::F10 => 0x43,
        KeyCode::F11 => 0x44,
        KeyCode::F12 => 0x45,
        KeyCode::PrintScreen => 0x46,
        KeyCode::ScrollLock => 0x47,
        KeyCode::Pause => 0x48,
        KeyCode::Insert => 0x49,
        KeyCode::Home => 0x4A,
        KeyCode::PageUp => 0x4B,
        KeyCode::Delete => 0x4C,
        KeyCode::End => 0x4D,
        KeyCode::PageDown => 0x4E,
        KeyCode::ArrowRight => 0x4F,
        KeyCode::ArrowLeft => 0x50,
        KeyCode::ArrowDown => 0x51,
        KeyCode::ArrowUp => 0x52,
        KeyCode::NumLock => 0x53,
        KeyCode::NumpadDivide => 0x54,
        KeyCode::NumpadMultiply => 0x55,
        KeyCode::NumpadSubtract => 0x56,
        KeyCode::NumpadAdd => 0x57,
        KeyCode::NumpadEnter => 0x58,
        KeyCode::Numpad1 => 0x59,
        KeyCode::Numpad2 => 0x5A,
        KeyCode::Numpad3 => 0x5B,
        KeyCode::Numpad4 => 0x5C,
        KeyCode::Numpad5 => 0x5D,
        KeyCode::Numpad6 => 0x5E,
        KeyCode::Numpad7 => 0x5F,
        KeyCode::Numpad8 => 0x60,
        KeyCode::Numpad9 => 0x61,
        KeyCode::Numpad0 => 0x62,
        KeyCode::NumpadDecimal => 0x63,
        KeyCode::ControlLeft => 0xE0,
        KeyCode::ShiftLeft => 0xE1,
        KeyCode::AltLeft => 0xE2,
        KeyCode::MetaLeft => 0xE3,
        KeyCode::ControlRight => 0xE4,
        KeyCode::ShiftRight => 0xE5,
        KeyCode::AltRight => 0xE6,
        KeyCode::MetaRight => 0xE7,
    }
}

/// Converts a USB HID keyboard usage to the physical key at its position and, where the
/// key has a name, its named logical key.
pub fn convert_hid_keycode(keycode: u8) -> (r: (PhysicalKey, Option<NamedKey>))
    ensures
        r.0 == hid_physical_key(keycode),
        r.1 == hid_named_key(keycode),
        r.1 == match r.0 {
            PhysicalKey::Code(code) => named_key_at(code),
            PhysicalKey::Unidentified => None,
        },
{
    let (key_code, named_key_opt) = match keycode {
        0x04 => (KeyCode::KeyA, None),
        0x05 => (KeyCode::KeyB, None),
        0x06 => (KeyCode::KeyC, None),
        0x07 => (KeyCode::KeyD, None),
        0x08 => (KeyCode::KeyE, None),
        0x09 => (KeyCode::KeyF, None),
        0x0A => (KeyCode::KeyG, None),
        0x0B => (KeyCode::KeyH, None),
        0x0C => (KeyCode::KeyI, None),
        0x0D => (KeyCode::KeyJ, None),
        0x0E => (KeyCode::KeyK, None),
        0x0F => (KeyCode::KeyL, None),
        0x10 => (KeyCode::KeyM, None),
        0x11 => (KeyCode::KeyN, None),
        0x12 => (KeyCode::KeyO, None),
        0x13 => (KeyCode::KeyP, None),
        0x14 => (KeyCode::KeyQ, None),
        0x15 => (KeyCode::KeyR, None),
        0x16 => (KeyCode::KeyS, None),
        0x17 => (KeyCode::KeyT, None),
        0x18 => (KeyCode::KeyU, None),
        0x19 => (KeyCode::KeyV, None),
        0x1A => (KeyCode::KeyW, None),
        0x1B => (KeyCode::KeyX, None),
        0x1C => (KeyCode::KeyY, None),
        0x1D => (KeyCode::KeyZ, None),
        0x1E => (KeyCode::Digit1, None),
        0x1F => (KeyCode::Digit2, None),
        0x20 => (KeyCode::Digit3, None),
        0x21 => (KeyCode::Digit4, None),
        0x22 => (KeyCode::Digit5, None),
        0x23 => (KeyCode::Digit6, None),
        0x24 => (KeyCode::Digit7, None),
        0x25 => (KeyCode::Digit8, None),
        0x26 => (KeyCode::Digit9, None),
        0x27 => (KeyCode::Digit0, None),
        0x28 => (KeyCode::Enter, Some(NamedKey::Enter)),
        0x29 => (KeyCode::Escape, Some(NamedKey::Escape)),
        0x2A => (KeyCode::Backspace, Some(NamedKey::Backspace)),
        0x2B => (KeyCode::Tab, Some(NamedKey::Tab)),
        0x2C => (KeyCode::Space, None),
        0x2D => (KeyCode::Minus, None),
        0x2E => (KeyCode::Equal, None),
        0x2F => (KeyCode::BracketLeft, None),
        0x30 => (KeyCode::BracketRight, None),
        0x31 => (KeyCode::Backslash, None),
        0x33 => (KeyCode::Semicolon, None),
        0x34 => (KeyCode::Quote, None),
        0x35 => (KeyCode::Backquote, None),
        0x36 => (KeyCode::Comma, None),
        0x37 => (KeyCode::Period, None),
        0x38 => (KeyCode::Slash, None),
        0x39 => (KeyCode::CapsLock, Some(NamedKey::CapsLock)),
        0x3A => (KeyCode::F1, Some(NamedKey::F1)),
        0x3B => (KeyCode::F2, Some(NamedKey::F2)),
        0x3C => (KeyCode::F3, Some(NamedKey::F3)),
        0x3D => (KeyCode::F4, Some(NamedKey::F4)),
        0x3E => (KeyCode::F5, Some(NamedKey::F5)),
        0x3F => (KeyCode::F6, Some(NamedKey::F6)),
        0x40 => (KeyCode::F7, Some(NamedKey::F7)),
        0x41 => (KeyCode::F8, Some(NamedKey::F8)),
        0x42 => (KeyCode::F9, Some(NamedKey::F9)),
        0x43 => (KeyCode::F10, Some(NamedKey::F10)),
        0x44 => (KeyCode::F11, Some(NamedKey::F11)),
        0x45 => (KeyCode::F12, Some(NamedKey::F12)),
        0x46 => (KeyCode::PrintScreen, Some(NamedKey::PrintScreen)),
        0x47 => (KeyCode::ScrollLock, Some(NamedKey::ScrollLock)),
        0x48 => (KeyCode::Pause, Some(NamedKey::Pause)),
        0x49 => (KeyCode::Insert, Some(NamedKey::Insert)),
        0x4A => (KeyCode::Home, Some(NamedKey::Home)),
        0x4B => (KeyCode::PageUp, Some(NamedKey::PageUp)),
        0x4C => (KeyCode::Delete, Some(NamedKey::Delete)),
        0x4D => (KeyCode::End, Some(NamedKey::End)),
        0x4E => (KeyCode::PageDown, Some(NamedKey::PageDown)),
        0x4F => (KeyCode::ArrowRight, Some(NamedKey::ArrowRight)),
        0x50 => (KeyCode::ArrowLeft, Some(NamedKey::ArrowLeft)),
        0x51 => (KeyCode::ArrowDown, Some(NamedKey::ArrowDown)),
        0x52 => (KeyCode::ArrowUp, Some(NamedKey::ArrowUp)),
        0x53 => (KeyCode::NumLock, Some(NamedKey::NumLock)),
        0x54 => (KeyCode::NumpadDivide, None),
        0x55 => (KeyCode::NumpadMultiply, None),
        0x56 => (KeyCode::NumpadSubtract, None),
        0x57 => (KeyCode::NumpadAdd, None),
        0x58 => (KeyCode::NumpadEnter, Some(NamedKey::Enter)),
        0x59 => (KeyCode::Numpad1, None),
        0x5A => (KeyCode::Numpad2, None),
        0x5B => (KeyCode::Numpad3, None),
        0x5C => (KeyCode::Numpad4, None),
        0x5D => (KeyCode::Numpad5, None),
        0x5E => (KeyCode::Numpad6, None),
        0x5F => (KeyCode::Numpad7, None),
        0x60 => (KeyCode::Numpad8, None),
        0x61 => (KeyCode::Numpad9, None),
        0x62 => (KeyCode::Numpad0, None),
        0x63 => (KeyCode::NumpadDecimal, None),
        0xE0 => (KeyCode::ControlLeft, Some(NamedKey::Control)),
        0xE1 => (KeyCode::ShiftLeft, Some(NamedKey::Shift)),
        0xE2 => (KeyCode::AltLeft, Some(NamedKey::Alt)),
        0xE3 => (KeyCode::MetaLeft, Some(NamedKey::Meta)),
        0xE4 => (KeyCode::ControlRight, Some(NamedKey::Control)),
        0xE5 => (KeyCode::ShiftRight, Some(NamedKey::Shift)),
        0xE6 => (KeyCode::AltRight, Some(NamedKey::AltGraph)),
        0xE7 => (KeyCode::MetaRight, Some(NamedKey::Meta)),
        _ => return (PhysicalKey::Unidentified, None),
    };
    (PhysicalKey::Code(key_code), named_key_opt)
}

/// Every reported key position comes from exactly one HID usage: reading the usage back from
/// the position gives the usage it came from.
pub proof fn lemma_hid_key_code_round_trip(keycode: u8)
    requires
        hid_key_code(keycode) is Some,
    ensures
        key_code_hid(hid_key_code(keycode)->0) == keycode,
{
}

/// Distinct HID usages never report the same key position.
pub proof fn lemma_hid_key_code_injective(a: u8, b: u8)
    requires
        hid_key_code(a) is Some,
        hid_key_code(a) == hid_key_code(b),
    ensures
        a == b,
{
    lemma_hid_key_code_round_trip(a);
    lemma_hid_key_code_round_trip(b);
}

/// A usage that names a logical key always has an identified position.
pub proof fn lemma_named_key_has_position(keycode: u8)
    requires
        hid_named_key(keycode) is Some,
    ensures
        hid_key_code(keycode) is Some,
{
}

/// The named key of a key position, for the positions whose key has a name: the name of the
/// key found there, whatever the usage it is reported by.
pub open spec fn named_key_at(code: KeyCode) -> Option<NamedKey> {
    match code {
        KeyCode::Enter => Some(NamedKey::Enter),
        KeyCode::Escape => Some(NamedKey::Escape),
        KeyCode::Backspace => Some(NamedKey::Backspace),
        KeyCode::Tab => Some(NamedKey::Tab),
        KeyCode::CapsLock => Some(NamedKey::CapsLock),
        KeyCode::F1 => Some(NamedKey::F1),
        KeyCode::F2 => Some(NamedKey::F2),
        KeyCode::F3 => Some(NamedKey::F3),
        KeyCode::F4 => Some(NamedKey::F4),
        KeyCode::F5 => Some(NamedKey::F5),
        KeyCode::F6 => Some(NamedKey::F6),
        KeyCode::F7 => Some(NamedKey::F7),
        KeyCode::F8 => Some(NamedKey::F8),
        KeyCode::F9 => Some(NamedKey::F9),
        KeyCode::F10 => Some(NamedKey::F10),
        KeyCode::F11 => Some(NamedKey::F11),
        KeyCode::F12 => Some(NamedKey::F12),
        KeyCode::PrintScreen => Some(NamedKey::PrintScreen),
        KeyCode::ScrollLock => Some(NamedKey::ScrollLock),
        KeyCode::Pause => Some(NamedKey::Pause),
        KeyCode::Insert => Some(NamedKey::Insert),
        KeyCode::Home => Some(NamedKey::Home),
        KeyCode::PageUp => Some(NamedKey::PageUp),
        KeyCode::Delete => Some(NamedKey::Delete),
        KeyCode::End => Some(NamedKey::End),
        KeyCode::PageDown => Some(NamedKey::PageDown),
        KeyCode::ArrowRight => Some(NamedKey::ArrowRight),
        KeyCode::ArrowLeft => Some(NamedKey::ArrowLeft),
        KeyCode::ArrowDown => Some(NamedKey::ArrowDown),
        KeyCode::ArrowUp => Some(NamedKey::ArrowUp),
        KeyCode::NumLock => Some(NamedKey::NumLock),
        KeyCode::NumpadEnter => Some(NamedKey::Enter),
        KeyCode::ControlLeft => Some(NamedKey::Control),
        KeyCode::ShiftLeft => Some(NamedKey::Shift),
        KeyCode::AltLeft => Some(NamedKey::Alt),
        KeyCode::MetaLeft => Some(NamedKey::Meta),
        KeyCode::ControlRight => Some(NamedKey::Control),
        KeyCode::ShiftRight => Some(NamedKey::Shift),
        KeyCode::AltRight => Some(NamedKey::AltGraph),
        KeyCode::MetaRight => Some(NamedKey::Meta),
        _ => None,
    }
}

/// The named key of a usage names the key at the usage's position: a usage names a key
/// exactly when its position has a name, and it is that name.
pub proof fn lemma_named_key_matches_position(keycode: u8)
    ensures
        hid_named_key(keycode) == match hid_key_code(keycode) {
            Some(code) => named_key_at(code),
            None => None,
        },
        hid_key_code(keycode) == Some(KeyCode::ArrowRight) ==> hid_named_key(keycode) == Some(
            NamedKey::ArrowRight,
        ),
        hid_key_code(keycode) == Some(KeyCode::ArrowLeft) ==> hid_named_key(keycode) == Some(
            NamedKey::ArrowLeft,
        ),
{
}

} // verus!
