use vstd::prelude::*;

use smol_str::SmolStr;

use crate::keyboard::{NamedKey, PhysicalKey};
use crate::modifiers::Modifiers;
use crate::text::smol_str_chars;

verus! {

/// Whether a key or button went down or came up.
#[derive(Clone, Copy, Debug, PartialEq, Eq, Hash, Structural)]
pub enum ElementState {
    Pressed,
    Released,
}

/// The element state of a key or button that went down (`pressed`) or came up.
pub open spec fn element_state_of(pressed: bool) -> ElementState {
    if pressed {
        ElementState::Pressed
    } else {
        ElementState::Released
    }
}

/// The element state of a key or button that went down (`pressed`) or came up.
pub fn element_state(pressed: bool) -> (r: ElementState)
    ensures
        r == element_state_of(pressed),
{
    if pressed {
        ElementState::Pressed
    } else {
        ElementState::Released
    }
}

/// A mouse button.
#[derive(Clone, Copy, Debug, PartialEq, Eq, Hash, Structural)]
pub enum MouseButton {
    Left,
    Right,
    Middle,
}

/// The logical meaning of a key.
#[derive(Debug, PartialEq, Eq)]
pub enum Key {
    /// A key with a name.
    Named(NamedKey),
    /// A key that types this text.
    Character(SmolStr),
    /// A key of unknown meaning.
    Unidentified,
}

/// A key going down or coming up, as reported to the application.
#[derive(Debug, PartialEq, Eq)]
pub struct KeyEvent {
    pub physical_key: PhysicalKey,
    pub logical_key: Key,
    pub key_without_modifiers: Key,
    pub state: ElementState,
    pub repeat: bool,
    pub text: Option<SmolStr>,
    pub text_with_all_modifiers: Option<SmolStr>,
}

/// An event delivered to the application for one window.
#[derive(Debug, PartialEq, Eq)]
pub enum WindowEvent {
    /// The drawing surface has this size, in physical pixels.
    SurfaceResized { width: u32, height: u32 },
    /// The window was destroyed.
    Destroyed,
    /// The user asked to close the window.
    CloseRequested,
    /// The window should draw itself.
    RedrawRequested,
    /// A key went down or came up.
    KeyboardInput { event: KeyEvent, is_synthetic: bool },
    /// The modifiers changed.
    ModifiersChanged(Modifiers),
    /// The mouse pointer moved to this position.
    PointerMoved { x: i32, y: i32 },
    /// A mouse button went down or came up at this position.
    PointerButton { state: ElementState, x: i32, y: i32, button: MouseButton },
    /// The mouse wheel turned by this many lines.
    MouseWheel { lines_y: i32 },
}

/// A key press or release as the window reports it, with the text the key types under the
/// keyboard layout in force.
#[derive(Clone, Debug, PartialEq, Eq)]
pub struct KeyPress {
    /// USB HID usage of the key.
    pub keycode: u8,
    /// Whether the key went down.
    pub pressed: bool,
    /// What the key types; empty for keys that type nothing.
    pub text: String,
}

/// What a mouse event reports.
#[derive(Clone, Copy, Debug, PartialEq, Eq, Hash, Structural)]
pub enum MouseEventKind {
    Move,
    Press,
    Release,
    Scroll,
    /// Any other report, which the event loop ignores.
    Other,
}

/// A mouse event as the window reports it.
#[derive(Clone, Copy, Debug, PartialEq, Eq, Hash, Structural)]
pub struct MouseEvent {
    pub event_type: MouseEventKind,
    pub x: i32,
    pub y: i32,
    /// The buttons that changed: 0x01 left, 0x02 right, 0x04 middle.
    pub changed: u8,
    /// Lines scrolled.
    pub scroll: i32,
}

/// An event read from the window.
#[derive(Debug, PartialEq, Eq)]
pub enum WindowInput {
    /// A key report, already resolved against the keyboard layout.
    KeyInput(KeyPress),
    MouseInput(MouseEvent),
    /// The window now has this size.
    Resized { width: u32, height: u32 },
    Close,
    /// The compositor is ready for a new frame.
    Frame,
    /// Pasted clipboard contents, which the event loop does not report.
    ClipboardPaste,
    /// The keyboard layout changed; the window resolves later key reports under it.
    LayoutChanged,
}

/// `k` is the key that types exactly `text`.
pub open spec fn is_character(k: Key, text: Seq<char>) -> bool {
    &&& k is Character
    &&& smol_str_chars(k->Character_0) == text
}

/// `t` holds exactly `text` when `present`, and nothing otherwise.
pub open spec fn is_text(t: Option<SmolStr>, present: bool, text: Seq<char>) -> bool {
    if present {
        &&& t is Some
        &&& smol_str_chars(t->Some_0) == text
    } else {
        t is None
    }
}

/// The logical key of a key report: its name where it has one, else the text it types,
/// else unidentified.
pub open spec fn is_logical_key(
    k: Key,
    named: Option<NamedKey>,
    types_text: bool,
    text: Seq<char>,
) -> bool {
    match named {
        Some(n) => k == Key::Named(n),
        None => if types_text {
            is_character(k, text)
        } else {
            k == Key::Unidentified
        },
    }
}

} // verus!
