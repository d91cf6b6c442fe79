use vstd::prelude::*;

use crate::event::{
    element_state, element_state_of, is_logical_key, is_text, ElementState, Key, KeyEvent,
    KeyPress, MouseButton, MouseEvent, MouseEventKind, WindowEvent,
};
use crate::keyboard::{convert_hid_keycode, hid_named_key, hid_physical_key};
use crate::modifiers::{
    flags_set, keyboard_after_key, modifiers_state_of, EventState, Modifiers, ModifiersKeys,
    ModifiersState, MOUSE_LEFT, MOUSE_MIDDLE, MOUSE_RIGHT,
};
use crate::text::{lowercase, lowercase_text, smol_str_chars, smol_str_new};

use std::sync::mpsc::SyncSender;

verus! {

/// The key event reported for a key press: its position and named key from the HID usage,
/// its logical key from the name or else the text it types, and text only when it goes down.
pub open spec fn is_key_event(ev: KeyEvent, press: KeyPress) -> bool {
    let types_text = press.text@.len() > 0;
    &&& ev.physical_key == hid_physical_key(press.keycode)
    &&& is_logical_key(ev.logical_key, hid_named_key(press.keycode), types_text, press.text@)
    &&& is_logical_key(
        ev.key_without_modifiers,
        hid_named_key(press.keycode),
        types_text,
        lowercase_text(press.text@),
    )
    &&& ev.state == element_state_of(press.pressed)
    &&& !ev.repeat
    &&& is_text(ev.text, press.pressed && types_text, press.text@)
    &&& is_text(ev.text_with_all_modifiers, press.pressed && types_text, press.text@)
}

/// The modifiers report for a modifier state.
pub open spec fn modifiers_report(bits: u8) -> Modifiers {
    Modifiers {
        state: ModifiersState { bits: modifiers_state_of(bits) },
        pressed_mods: ModifiersKeys { bits },
    }
}

/// The events for a key report, and the state after it: the modifier keys are tracked; the
/// first event is the keyboard input and a second one, only where the modifiers changed,
/// reports the new modifiers.
pub open spec fn key_events_ok(
    press: KeyPress,
    before: EventState,
    after: EventState,
    events: Seq<WindowEvent>,
) -> bool {
    &&& after.keyboard.bits == keyboard_after_key(
        before.keyboard.bits,
        hid_physical_key(press.keycode),
        press.pressed,
    )
    &&& after.mouse == before.mouse
    &&& events.len() == if after.keyboard == before.keyboard {
        1int
    } else {
        2int
    }
    &&& events[0] is KeyboardInput
    &&& is_key_event(events[0]->event, press)
    &&& !events[0]->is_synthetic
    &&& events.len() == 2 ==> events[1] == WindowEvent::ModifiersChanged(
        modifiers_report(after.keyboard.bits),
    )
}

/// Translates a key report into the events for the application, in order, and tracks the
/// modifier keys: first the keyboard input, then, where the key changed the modifiers, the
/// new modifiers.
pub fn process_key_event(press: &KeyPress, event_state: &mut EventState) -> (events: Vec<
    WindowEvent,
>)
    ensures
        key_events_ok(*press, *old(event_state), *final(event_state), events@),
        events[0]->event.text is Some == (press.pressed && press.text@.len() > 0),
        events[0]->event.text_with_all_modifiers is Some == events[0]->event.text is Some,
        events[0]->event.text is Some ==> smol_str_chars(events[0]->event.text->Some_0)
            == press.text@,
        events[0]->event.text_with_all_modifiers is Some ==> smol_str_chars(
            events[0]->event.text_with_all_modifiers->Some_0,
        ) == press.text@,
{
    let pressed = press.pressed;
    let (physical_key, named_key_opt) = convert_hid_keycode(press.keycode);

    let modifiers_before = event_state.keyboard;
    event_state.key(physical_key, pressed);

    let mut logical_key = Key::Unidentified;
    let mut key_without_modifiers = Key::Unidentified;
    let mut text = None;
    let mut text_with_all_modifiers = None;

    let typed = press.text.as_str();
    if !typed.is_empty() {
        logical_key = Key::Character(smol_str_new(typed));
        let lower = lowercase(typed);
        key_without_modifiers = Key::Character(smol_str_new(lower.as_str()));
        if pressed {
            text = Some(smol_str_new(typed));
            text_with_all_modifiers = Some(smol_str_new(typed));
        }
    }

    if let Some(named_key) = named_key_opt {
        logical_key = Key::Named(named_key);
        key_without_modifiers = Key::Named(named_key);
    }

    let event = WindowEvent::KeyboardInput {
        event: KeyEvent {
            logical_key,
            physical_key,
            state: element_state(pressed),
            repeat: false,
            text,
            key_without_modifiers,
            text_with_all_modifiers,
        },
        is_synthetic: false,
    };

    let mut events = Vec::new();
    events.push(event);
    if modifiers_before != event_state.keyboard {
        events.push(WindowEvent::ModifiersChanged(event_state.modifiers()));
    }
    events
}

/// The button a mouse report names by its changed bits; a report that names none of the three
/// single buttons counts as the left button.
pub open spec fn button_of(changed: u8) -> MouseButton {
    if changed == 0x01 {
        MouseButton::Left
    } else if changed == 0x02 {
        MouseButton::Right
    } else if changed == 0x04 {
        MouseButton::Middle
    } else {
        MouseButton::Left
    }
}

/// The held-button flags of the buttons a mouse report names as changed.
pub open spec fn changed_buttons(changed: u8) -> u8 {
    (if changed & 0x01 != 0 { MOUSE_LEFT } else { 0 }) | (if changed & 0x02 != 0 {
        MOUSE_RIGHT
    } else {
        0
    }) | (if changed & 0x04 != 0 { MOUSE_MIDDLE } else { 0 })
}

/// The event a mouse report gives the application, if any.
pub open spec fn mouse_event_of(mouse: MouseEvent) -> Option<WindowEvent> {
    match mouse.event_type {
        MouseEventKind::Move => Some(WindowEvent::PointerMoved { x: mouse.x, y: mouse.y }),
        MouseEventKind::Press => Some(
            WindowEvent::PointerButton {
                state: ElementState::Pressed,
                x: mouse.x,
                y: mouse.y,
                button: button_of(mouse.changed),
            },
        ),
        MouseEventKind::Release => Some(
            WindowEvent::PointerButton {
                state: ElementState::Released,
                x: mouse.x,
                y: mouse.y,
                button: button_of(mouse.changed),
            },
        ),
        MouseEventKind::Scroll => Some(WindowEvent::MouseWheel { lines_y: mouse.scroll }),
        MouseEventKind::Other => None,
    }
}

/// The held buttons after a mouse report: a press holds, and a release lets go of, every
/// button the report names as changed.
pub open spec fn mouse_after(bits: u8, mouse: MouseEvent) -> u8 {
    match mouse.event_type {
        MouseEventKind::Press => flags_set(bits, changed_buttons(mouse.changed), true),
        MouseEventKind::Release => flags_set(bits, changed_buttons(mouse.changed), false),
        _ => bits,
    }
}

proof fn lemma_three_sets(bits: u8, c: u8, v: bool)
    by (bit_vector)
    ensures
        flags_set(
            flags_set(
                flags_set(bits, if c & 0x01 != 0 { 0x01 } else { 0 }, v),
                if c & 0x02 != 0 { 0x04 } else { 0 },
                v,
            ),
            if c & 0x04 != 0 { 0x02 } else { 0 },
            v,
        ) == flags_set(
            bits,
            (if c & 0x01 != 0 { 0x01u8 } else { 0 }) | (if c & 0x02 != 0 { 0x04u8 } else { 0 }) | (
            if c & 0x04 != 0 { 0x02u8 } else { 0 }),
            v,
        ),
{
}

proof fn lemma_set_nothing(bits: u8, v: bool)
    by (bit_vector)
    ensures
        flags_set(bits, 0, v) == bits,
{
}

/// Translates a mouse report into the event for the application, if any, and tracks the
/// mouse buttons.
pub fn process_mouse_event(mouse: MouseEvent, event_state: &mut EventState) -> (event: Option<
    WindowEvent,
>)
    ensures
        event == mouse_event_of(mouse),
        final(event_state).mouse.bits == mouse_after(old(event_state).mouse.bits, mouse),
        final(event_state).keyboard == old(event_state).keyboard,
        mouse.event_type is Press || mouse.event_type is Release ==> event is Some
            && event->Some_0 is PointerButton,
        mouse.event_type is Press || mouse.event_type is Release ==> event->Some_0->PointerButton_x == mouse.x
            && event->Some_0->PointerButton_y == mouse.y,
        mouse.event_type is Press || mouse.event_type is Release ==> (mouse.changed == 0x01
            ==> event->Some_0->button == MouseButton::Left) && (mouse.changed == 0x02
            ==> event->Some_0->button == MouseButton::Right) && (mouse.changed == 0x04
            ==> event->Some_0->button == MouseButton::Middle),
{
    match mouse.event_type {
        MouseEventKind::Move => Some(WindowEvent::PointerMoved { x: mouse.x, y: mouse.y }),
        MouseEventKind::Press | MouseEventKind::Release => {
            let pressed = match mouse.event_type {
                MouseEventKind::Press => true,
                _ => false,
            };
            let button = match mouse.changed {
                0x01 => MouseButton::Left,
                0x02 => MouseButton::Right,
                0x04 => MouseButton::Middle,
                _ => MouseButton::Left,
            };
            let ghost before = event_state.mouse.bits;
            // Track button state.
            if mouse.changed & 0x01 != 0 {
                event_state.mouse.set(MOUSE_LEFT, pressed);
            }
            proof {
                lemma_set_nothing(before, pressed);
            }
            let ghost after_left = event_state.mouse.bits;
            if mouse.changed & 0x02 != 0 {
                event_state.mouse.set(MOUSE_RIGHT, pressed);
            }
            proof {
                lemma_set_nothing(after_left, pressed);
            }
            let ghost after_right = event_state.mouse.bits;
            if mouse.changed & 0x04 != 0 {
                event_state.mouse.set(MOUSE_MIDDLE, pressed);
            }
            proof {
                lemma_set_nothing(after_right, pressed);
                lemma_three_sets(before, mouse.changed, pressed);
            }
            Some(
                WindowEvent::PointerButton {
                    state: element_state(pressed),
                    x: mouse.x,
                    y: mouse.y,
                    button,
                },
            )
        },
        MouseEventKind::Scroll => Some(WindowEvent::MouseWheel { lines_y: mouse.scroll }),
        MouseEventKind::Other => None,
    }
}

/// A key that comes up types no text.
pub proof fn lemma_release_types_nothing(
    press: KeyPress,
    before: EventState,
    after: EventState,
    events: Seq<WindowEvent>,
)
    requires
        key_events_ok(press, before, after, events),
        !press.pressed,
    ensures
        events[0]->event.text is None,
        events[0]->event.text_with_all_modifiers is None,
{
}

/// A key with a name is reported by its name, whatever text the layout gives it.
pub proof fn lemma_named_key_wins(
    press: KeyPress,
    before: EventState,
    after: EventState,
    events: Seq<WindowEvent>,
)
    requires
        key_events_ok(press, before, after, events),
        hid_named_key(press.keycode) is Some,
    ensures
        events[0]->event.logical_key == Key::Named(hid_named_key(press.keycode)->0),
        events[0]->event.key_without_modifiers == Key::Named(hid_named_key(press.keycode)->0),
{
}

/// Only the eight modifier keys report new modifiers; every other key gives a single event.
pub proof fn lemma_plain_key_single_event(
    press: KeyPress,
    before: EventState,
    after: EventState,
    events: Seq<WindowEvent>,
)
    requires
        key_events_ok(press, before, after, events),
        !(0xE0 <= press.keycode <= 0xE7),
    ensures
        events.len() == 1,
        after == before,
{
    crate::modifiers::lemma_modifier_usages(press.keycode);
}

/// After a release, none of the buttons it names is held.
pub proof fn lemma_release_lets_go(bits: u8, mouse: MouseEvent)
    requires
        mouse.event_type is Release,
    ensures
        mouse_after(bits, mouse) & changed_buttons(mouse.changed) == 0,
{
    let c = changed_buttons(mouse.changed);
    assert(bits & !c & c == 0) by (bit_vector);
}

/// After a press, every button it names is held.
pub proof fn lemma_press_holds_buttons(bits: u8, mouse: MouseEvent)
    requires
        mouse.event_type is Press,
    ensures
        mouse_after(bits, mouse) & changed_buttons(mouse.changed) == changed_buttons(mouse.changed),
{
    let c = changed_buttons(mouse.changed);
    assert((bits | c) & c == c) by (bit_vector);
}

/// A key that goes down and types text reports exactly that text, both as its text and as
/// its text with all modifiers applied; otherwise it reports neither.
pub proof fn lemma_key_text(
    press: KeyPress,
    before: EventState,
    after: EventState,
    events: Seq<WindowEvent>,
)
    requires
        key_events_ok(press, before, after, events),
    ensures
        events[0]->event.text is Some == (press.pressed && press.text@.len() > 0),
        events[0]->event.text_with_all_modifiers is Some == events[0]->event.text is Some,
        events[0]->event.text is Some ==> smol_str_chars(events[0]->event.text->Some_0)
            == press.text@,
        events[0]->event.text_with_all_modifiers is Some ==> smol_str_chars(
            events[0]->event.text_with_all_modifiers->Some_0,
        ) == press.text@,
{
}

/// The held-button flag of a mouse button.
pub open spec fn button_flag(button: MouseButton) -> u8 {
    match button {
        MouseButton::Left => MOUSE_LEFT,
        MouseButton::Right => MOUSE_RIGHT,
        MouseButton::Middle => MOUSE_MIDDLE,
    }
}

/// A press or release of a single button reports that button (0x01 left, 0x02 right,
/// 0x04 middle), and its held flag is the one flag the report sets or clears.
pub proof fn lemma_single_button_report(mouse: MouseEvent, before: u8)
    requires
        mouse.event_type is Press || mouse.event_type is Release,
        mouse.changed == 0x01 || mouse.changed == 0x02 || mouse.changed == 0x04,
    ensures
        mouse_event_of(mouse) is Some,
        mouse_event_of(mouse)->Some_0 is PointerButton,
        mouse.changed == 0x01 ==> mouse_event_of(mouse)->Some_0->button == MouseButton::Left,
        mouse.changed == 0x02 ==> mouse_event_of(mouse)->Some_0->button == MouseButton::Right,
        mouse.changed == 0x04 ==> mouse_event_of(mouse)->Some_0->button == MouseButton::Middle,
        mouse_after(before, mouse) & button_flag(mouse_event_of(mouse)->Some_0->button) == if mouse.event_type is Press {
            button_flag(mouse_event_of(mouse)->Some_0->button)
        } else {
            0u8
        },
        mouse_after(before, mouse) & !button_flag(mouse_event_of(mouse)->Some_0->button) == before
            & !button_flag(mouse_event_of(mouse)->Some_0->button),
{
    let c = mouse.changed;
    let f = button_flag(mouse_event_of(mouse)->Some_0->button);
    if c == 0x01 {
        assert(changed_buttons(c) == MOUSE_LEFT) by (bit_vector)
            requires
                c == 0x01u8,
        ;
    } else if c == 0x02 {
        assert(changed_buttons(c) == MOUSE_RIGHT) by (bit_vector)
            requires
                c == 0x02u8,
        ;
    } else {
        assert(changed_buttons(c) == MOUSE_MIDDLE) by (bit_vector)
            requires
                c == 0x04u8,
        ;
    }
    assert(changed_buttons(c) == f);
    assert((before | f) & f == f && (before | f) & !f == before & !f && (before & !f) & f == 0
        && (before & !f) & !f == before & !f) by (bit_vector);
}

/// std's `SyncSender`, the sending half of the wake-up channel.
#[verifier::external_type_specification]
#[verifier::external_body]
#[verifier::reject_recursive_types(T)]
pub struct ExSyncSender<T>(SyncSender<T>);

/// `SyncSender::try_send` of a unit message. Whether it was queued depends on the channel's
/// capacity, on what is queued and on whether the receiver is alive, so nothing is stated of
/// the result.
#[verifier::external_body]
fn try_send_unit(sender: &SyncSender<()>) -> bool {
    sender.try_send(()).is_ok()
}

/// Wakes the event loop from another thread.
#[derive(Debug)]
pub struct EventLoopProxy {
    user_events_sender: SyncSender<()>,
}

impl EventLoopProxy {
    /// The sending half of the channel this proxy wakes the loop through.
    pub closed spec fn sender(&self) -> SyncSender<()> {
        self.user_events_sender
    }

    /// A proxy that wakes the loop through `user_events_sender`.
    pub fn new(user_events_sender: SyncSender<()>) -> (r: Self)
        ensures
            r.sender() == user_events_sender,
    {
        EventLoopProxy { user_events_sender }
    }

    /// Asks the loop to deliver a wake-up; when one is already waiting, the request is
    /// dropped.
    pub fn wake_up(&self) {
        let _ = try_send_unit(&self.user_events_sender);
    }
}

/// Platform-specific event loop attributes: ToyOS has none.
#[derive(Clone, Copy, Debug, PartialEq, Eq, Hash, Structural)]
pub struct PlatformSpecificEventLoopAttributes {}

impl Default for PlatformSpecificEventLoopAttributes {
    fn default() -> (r: Self)
        ensures
            r == (PlatformSpecificEventLoopAttributes {}),
    {
        PlatformSpecificEventLoopAttributes {}
    }
}

} // verus!
