use vstd::prelude::*;

use crate::keyboard::{hid_key_code, KeyCode, PhysicalKey};

verus! {

/// Left shift held.
pub const LSHIFT: u8 = 0x01;
/// Right shift held.
pub const RSHIFT: u8 = 0x02;
/// Left control held.
pub const LCTRL: u8 = 0x04;
/// Right control held.
pub const RCTRL: u8 = 0x08;
/// Left alt held.
pub const LALT: u8 = 0x10;
/// Right alt held.
pub const RALT: u8 = 0x20;
/// Left meta held.
pub const LMETA: u8 = 0x40;
/// Right meta held.
pub const RMETA: u8 = 0x80;

/// Left mouse button held.
pub const MOUSE_LEFT: u8 = 0x01;
/// Middle mouse button held.
pub const MOUSE_MIDDLE: u8 = 0x02;
/// Right mouse button held.
pub const MOUSE_RIGHT: u8 = 0x04;

/// Logical shift modifier, in the bit layout of winit-core's `ModifiersState`.
pub const STATE_SHIFT: u32 = 0x004;
/// Logical control modifier.
pub const STATE_CONTROL: u32 = 0x020;
/// Logical alt modifier.
pub const STATE_ALT: u32 = 0x100;
/// Logical meta modifier.
pub const STATE_META: u32 = 0x800;

/// The flags `bits` after turning the flags of `mask` on (`value`) or off.
pub open spec fn flags_set(bits: u8, mask: u8, value: bool) -> u8 {
    if value {
        bits | mask
    } else {
        bits & !mask
    }
}

/// Which of the eight modifier keys are held, one bit each.
#[derive(Clone, Copy, Debug, PartialEq, Eq, Hash, Structural)]
pub struct KeyboardModifierState {
    pub bits: u8,
}

impl KeyboardModifierState {
    /// No modifier key held.
    pub fn empty() -> (r: Self)
        ensures
            r.bits == 0,
    {
        KeyboardModifierState { bits: 0 }
    }

    /// Whether every flag of `mask` is held.
    pub fn contains(&self, mask: u8) -> (r: bool)
        ensures
            r == (self.bits & mask == mask),
    {
        self.bits & mask == mask
    }

    /// Whether some flag of `mask` is held.
    pub fn intersects(&self, mask: u8) -> (r: bool)
        ensures
            r == (self.bits & mask != 0),
    {
        self.bits & mask != 0
    }

    /// Turns the flags of `mask` on or off, leaving the others as they are.
    pub fn set(&mut self, mask: u8, value: bool)
        ensures
            final(self).bits == flags_set(old(self).bits, mask, value),
    {
        if value {
            self.bits = self.bits | mask;
        } else {
            self.bits = self.bits & !mask;
        }
    }
}

/// Which mouse buttons are held, one bit each.
#[derive(Clone, Copy, Debug, PartialEq, Eq, Hash, Structural)]
pub struct MouseButtonState {
    pub bits: u8,
}

impl MouseButtonState {
    /// No button held.
    pub fn empty() -> (r: Self)
        ensures
            r.bits == 0,
    {
        MouseButtonState { bits: 0 }
    }

    /// Whether every flag of `mask` is held.
    pub fn contains(&self, mask: u8) -> (r: bool)
        ensures
            r == (self.bits & mask == mask),
    {
        self.bits & mask == mask
    }

    /// Turns the flags of `mask` on or off, leaving the others as they are.
    pub fn set(&mut self, mask: u8, value: bool)
        ensures
            final(self).bits == flags_set(old(self).bits, mask, value),
    {
        if value {
            self.bits = self.bits | mask;
        } else {
            self.bits = self.bits & !mask;
        }
    }
}

/// The logical modifiers in force, in the bit layout of winit-core's `ModifiersState`.
#[derive(Clone, Copy, Debug, PartialEq, Eq, Hash, Structural)]
pub struct ModifiersState {
    pub bits: u32,
}

/// The modifier keys held, in the bit layout of winit-core's `ModifiersKeys`.
#[derive(Clone, Copy, Debug, PartialEq, Eq, Hash, Structural)]
pub struct ModifiersKeys {
    pub bits: u8,
}

/// A modifiers report: the logical modifiers and the keys behind them.
#[derive(Clone, Copy, Debug, PartialEq, Eq, Hash, Structural)]
pub struct Modifiers {
    pub state: ModifiersState,
    pub pressed_mods: ModifiersKeys,
}

/// The flag a key position holds in the modifier state, or 0 for a key that is no modifier.
pub open spec fn modifier_flag(code: KeyCode) -> u8 {
    match code {
        KeyCode::ShiftLeft => LSHIFT,
        KeyCode::ShiftRight => RSHIFT,
        KeyCode::ControlLeft => LCTRL,
        KeyCode::ControlRight => RCTRL,
        KeyCode::AltLeft => LALT,
        KeyCode::AltRight => RALT,
        KeyCode::MetaLeft => LMETA,
        KeyCode::MetaRight => RMETA,
        _ => 0,
    }
}

/// The modifier state after `key` went down (`pressed`) or up.
pub open spec fn keyboard_after_key(bits: u8, key: PhysicalKey, pressed: bool) -> u8 {
    match key {
        PhysicalKey::Code(code) => if modifier_flag(code) == 0 {
            bits
        } else {
            flags_set(bits, modifier_flag(code), pressed)
        },
        PhysicalKey::Unidentified => bits,
    }
}

/// The logical modifiers of a modifier state: shift, control, alt and meta are each in force
/// while either of their two keys is held.
pub open spec fn modifiers_state_of(bits: u8) -> u32 {
    (if bits & (LSHIFT | RSHIFT) != 0 { STATE_SHIFT } else { 0 }) | (if bits & (LCTRL | RCTRL)
        != 0 {
        STATE_CONTROL
    } else {
        0
    }) | (if bits & (LALT | RALT) != 0 { STATE_ALT } else { 0 }) | (if bits & (LMETA | RMETA)
        != 0 {
        STATE_META
    } else {
        0
    })
}

/// The keyboard and mouse state the event loop tracks between events.
#[derive(Clone, Copy, Debug, PartialEq, Eq, Structural)]
pub struct EventState {
    pub keyboard: KeyboardModifierState,
    pub mouse: MouseButtonState,
}

impl Default for EventState {
    fn default() -> (r: Self)
        ensures
            r.keyboard.bits == 0,
            r.mouse.bits == 0,
    {
        EventState { keyboard: KeyboardModifierState::empty(), mouse: MouseButtonState::empty() }
    }
}

impl EventState {
    /// Nothing held.
    pub fn new() -> (r: Self)
        ensures
            r.keyboard.bits == 0,
            r.mouse.bits == 0,
    {
        EventState { keyboard: KeyboardModifierState::empty(), mouse: MouseButtonState::empty() }
    }

    /// Records that `key` went down (`pressed`) or up; only the eight modifier keys change
    /// the state.
    pub fn key(&mut self, key: PhysicalKey, pressed: bool)
        ensures
            final(self).keyboard.bits == keyboard_after_key(old(self).keyboard.bits, key, pressed),
            final(self).mouse == old(self).mouse,
    {
        let code = match key {
            PhysicalKey::Code(code) => code,
            _ => return ,
        };
        match code {
            KeyCode::ShiftLeft => self.keyboard.set(LSHIFT, pressed),
            KeyCode::ShiftRight => self.keyboard.set(RSHIFT, pressed),
            KeyCode::ControlLeft => self.keyboard.set(LCTRL, pressed),
            KeyCode::ControlRight => self.keyboard.set(RCTRL, pressed),
            KeyCode::AltLeft => self.keyboard.set(LALT, pressed),
            KeyCode::AltRight => self.keyboard.set(RALT, pressed),
            KeyCode::MetaLeft => self.keyboard.set(LMETA, pressed),
            KeyCode::MetaRight => self.keyboard.set(RMETA, pressed),
            _ => (),
        }
    }

    /// The modifiers report for the keys held: each logical modifier is in force while
    /// either of its keys is held, and the keys are reported as they are held.
    pub fn modifiers(&self) -> (r: Modifiers)
        ensures
            r.state.bits == modifiers_state_of(self.keyboard.bits),
            r.pressed_mods.bits == self.keyboard.bits,
            (r.state.bits & STATE_SHIFT != 0) == (self.keyboard.bits & LSHIFT != 0
                || self.keyboard.bits & RSHIFT != 0),
            (r.state.bits & STATE_CONTROL != 0) == (self.keyboard.bits & LCTRL != 0
                || self.keyboard.bits & RCTRL != 0),
            (r.state.bits & STATE_ALT != 0) == (self.keyboard.bits & LALT != 0
                || self.keyboard.bits & RALT != 0),
            (r.state.bits & STATE_META != 0) == (self.keyboard.bits & LMETA != 0
                || self.keyboard.bits & RMETA != 0),
            r.state.bits & !(STATE_SHIFT | STATE_CONTROL | STATE_ALT | STATE_META) == 0,
    {
        let shift: u32 = if self.keyboard.intersects(LSHIFT | RSHIFT) {
            STATE_SHIFT
        } else {
            0
        };
        let control: u32 = if self.keyboard.intersects(LCTRL | RCTRL) {
            STATE_CONTROL
        } else {
            0
        };
        let alt: u32 = if self.keyboard.intersects(LALT | RALT) {
            STATE_ALT
        } else {
            0
        };
        let meta: u32 = if self.keyboard.intersects(LMETA | RMETA) {
            STATE_META
        } else {
            0
        };
        let mut pressed_mods = KeyboardModifierState::empty();
        pressed_mods.set(LSHIFT, self.keyboard.contains(LSHIFT));
        pressed_mods.set(RSHIFT, self.keyboard.contains(RSHIFT));
        pressed_mods.set(LCTRL, self.keyboard.contains(LCTRL));
        pressed_mods.set(RCTRL, self.keyboard.contains(RCTRL));
        pressed_mods.set(LALT, self.keyboard.contains(LALT));
        pressed_mods.set(RALT, self.keyboard.contains(RALT));
        pressed_mods.set(LMETA, self.keyboard.contains(LMETA));
        pressed_mods.set(RMETA, self.keyboard.contains(RMETA));
        proof {
            let kb = self.keyboard.bits;
            let p = pressed_mods.bits;
            assert(p == flags_set(
                flags_set(
                    flags_set(
                        flags_set(
                            flags_set(
                                flags_set(
                                    flags_set(
                                        flags_set(0, 0x01, kb & 0x01 == 0x01),
                                        0x02,
                                        kb & 0x02 == 0x02,
                                    ),
                                    0x04,
                                    kb & 0x04 == 0x04,
                                ),
                                0x08,
                                kb & 0x08 == 0x08,
                            ),
                            0x10,
                            kb & 0x10 == 0x10,
                        ),
                        0x20,
                        kb & 0x20 == 0x20,
                    ),
                    0x40,
                    kb & 0x40 == 0x40,
                ),
                0x80,
                kb & 0x80 == 0x80,
            ));
            lemma_flags_rebuilt(kb);
        }
        proof {
            lemma_modifiers_in_force(self.keyboard.bits);
        }
        Modifiers {
            state: ModifiersState { bits: shift | control | alt | meta },
            pressed_mods: ModifiersKeys { bits: pressed_mods.bits },
        }
    }
}

/// Setting each of the eight flags in turn, from nothing, to whether it is held in `kb`
/// gives `kb` back.
proof fn lemma_flags_rebuilt(kb: u8)
    by (bit_vector)
    ensures
        flags_set(
            flags_set(
                flags_set(
                    flags_set(
                        flags_set(
                            flags_set(
                                flags_set(
                                    flags_set(0, 0x01, kb & 0x01 == 0x01),
                                    0x02,
                                    kb & 0x02 == 0x02,
                                ),
                                0x04,
                                kb & 0x04 == 0x04,
                            ),
                            0x08,
                            kb & 0x08 == 0x08,
                        ),
                        0x10,
                        kb & 0x10 == 0x10,
                    ),
                    0x20,
                    kb & 0x20 == 0x20,
                ),
                0x40,
                kb & 0x40 == 0x40,
            ),
            0x80,
            kb & 0x80 == 0x80,
        ) == kb,
{
}

/// A key that went down and came up again leaves the modifier state as it was, provided its
/// flag was not already held.
pub proof fn lemma_press_release_restores(bits: u8, key: PhysicalKey)
    requires
        key matches PhysicalKey::Code(code) ==> bits & modifier_flag(code) == 0,
    ensures
        keyboard_after_key(keyboard_after_key(bits, key, true), key, false) == bits,
{
    if let PhysicalKey::Code(code) = key {
        let f = modifier_flag(code);
        if f != 0 {
            assert(bits & f == 0 ==> (bits | f) & !f == bits) by (bit_vector);
        }
    }
}

/// A key that came up is no longer held, whatever was held before.
pub proof fn lemma_release_clears(bits: u8, code: KeyCode)
    ensures
        keyboard_after_key(bits, PhysicalKey::Code(code), false) & modifier_flag(code) == 0,
{
    let f = modifier_flag(code);
    assert(bits & !f & f == 0) by (bit_vector);
    assert(bits & 0 == 0) by (bit_vector);
}

/// A key that went down is held afterwards.
pub proof fn lemma_press_holds(bits: u8, code: KeyCode)
    ensures
        keyboard_after_key(bits, PhysicalKey::Code(code), true) & modifier_flag(code)
            == modifier_flag(code),
{
    let f = modifier_flag(code);
    assert((bits | f) & f == f) by (bit_vector);
    assert(bits & 0 == 0) by (bit_vector);
}

/// The HID usages whose keys change the modifier state are exactly 0xE0 to 0xE7.
pub proof fn lemma_modifier_usages(keycode: u8)
    ensures
        (hid_key_code(keycode) matches Some(code) && modifier_flag(code) != 0) <==> 0xE0 <= keycode
            <= 0xE7,
{
}

/// Each logical modifier is in force exactly while either of its two keys is held, and no
/// other bit of the report is set.
pub proof fn lemma_modifiers_in_force(bits: u8)
    by (bit_vector)
    ensures
        (modifiers_state_of(bits) & STATE_SHIFT != 0) == (bits & LSHIFT != 0 || bits & RSHIFT
            != 0),
        (modifiers_state_of(bits) & STATE_CONTROL != 0) == (bits & LCTRL != 0 || bits & RCTRL
            != 0),
        (modifiers_state_of(bits) & STATE_ALT != 0) == (bits & LALT != 0 || bits & RALT != 0),
        (modifiers_state_of(bits) & STATE_META != 0) == (bits & LMETA != 0 || bits & RMETA != 0),
        modifiers_state_of(bits) & !(STATE_SHIFT | STATE_CONTROL | STATE_ALT | STATE_META) == 0,
{
}

} // verus!
