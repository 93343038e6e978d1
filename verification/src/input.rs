//! Browser events as RDP input events.
//!
//! Flags are kept as the bits that they have on the wire.
use crate::rdp::{ClientEvent, PointerAction};
use crate::scancode;
use crate::scancode::scancode_for_code;
use crate::text;
use vstd::prelude::*;

verus! {

/// Bits of a fast-path keyboard event.
pub const KEYBOARD_RELEASE: u8 = 0x01;

pub const KEYBOARD_EXTENDED: u8 = 0x02;

/// Bits of a slow-path scan code event.
pub const SCAN_CODE_EXTENDED: u16 = 0x0100;

pub const SCAN_CODE_DOWN: u16 = 0x4000;

pub const SCAN_CODE_RELEASE: u16 = 0x8000;

/// Bit of a slow-path Unicode event.
pub const UNICODE_RELEASE: u16 = 0x8000;

/// Bits of a mouse event.
pub const POINTER_VERTICAL_WHEEL: u16 = 0x0200;

pub const POINTER_MOVE: u16 = 0x0800;

pub const POINTER_LEFT_BUTTON: u16 = 0x1000;

pub const POINTER_RIGHT_BUTTON: u16 = 0x2000;

pub const POINTER_MIDDLE_BUTTON_OR_WHEEL: u16 = 0x4000;

pub const POINTER_DOWN: u16 = 0x8000;

/// A mouse event.
#[derive(Debug, Clone, Copy, PartialEq, Eq, Structural)]
pub struct MousePdu {
    pub flags: u16,
    pub number_of_wheel_rotation_units: i16,
    pub x_position: u16,
    pub y_position: u16,
}

/// An event of the further mouse buttons.
#[derive(Debug, Clone, Copy, PartialEq, Eq, Structural)]
pub struct MouseXPdu {
    pub flags: u16,
    pub x_position: u16,
    pub y_position: u16,
}

/// A relative mouse movement.
#[derive(Debug, Clone, Copy, PartialEq, Eq, Structural)]
pub struct MouseRelPdu {
    pub flags: u16,
    pub x_delta: i16,
    pub y_delta: i16,
}

/// An event as the fast path has it.
#[derive(Debug, Clone, Copy, PartialEq, Eq, Structural)]
pub enum FastPathInputEvent {
    KeyboardEvent(u8, u8),
    UnicodeKeyboardEvent(u8, u16),
    MouseEvent(MousePdu),
    MouseEventEx(MouseXPdu),
    MouseEventRel(MouseRelPdu),
    QoeEvent(u32),
    SyncEvent(u8),
}

/// A key as the slow path has it.
#[derive(Debug, Clone, Copy, PartialEq, Eq, Structural)]
pub struct ScanCodePdu {
    pub flags: u16,
    pub key_code: u16,
}

/// A character as the slow path has it.
#[derive(Debug, Clone, Copy, PartialEq, Eq, Structural)]
pub struct UnicodePdu {
    pub flags: u16,
    pub unicode_code: u16,
}

/// An event as the slow path has it.
#[derive(Debug, Clone, Copy, PartialEq, Eq, Structural)]
pub enum InputEvent {
    ScanCode(ScanCodePdu),
    Unicode(UnicodePdu),
    Mouse(MousePdu),
    MouseX(MouseXPdu),
    MouseRel(MouseRelPdu),
}

/// The flag of a browser mouse button: 1 is the middle one, 2 the right one,
/// and any other, or none, the left one.
pub open spec fn button_bits(button: Option<u8>) -> u16 {
    match button {
        Some(1) => POINTER_MIDDLE_BUTTON_OR_WHEEL,
        Some(2) => POINTER_RIGHT_BUTTON,
        _ => POINTER_LEFT_BUTTON,
    }
}

/// The flags of a pointer action.
pub open spec fn pointer_bits(action: PointerAction, button: Option<u8>) -> u16 {
    match action {
        PointerAction::Move => POINTER_MOVE,
        PointerAction::Down => POINTER_MOVE | (POINTER_DOWN | button_bits(button)),
        PointerAction::Up => POINTER_MOVE | button_bits(button),
        PointerAction::Wheel => POINTER_VERTICAL_WHEEL,
    }
}

/// A wheel movement, held between -255 and 255; 0 if there is none.
pub open spec fn wheel_units(delta_y: Option<i16>) -> int {
    match delta_y {
        Some(delta) if delta < -255 => -255,
        Some(delta) if delta > 255 => 255,
        Some(delta) => delta as int,
        None => 0,
    }
}

/// The mouse event of a pointer action.
pub open spec fn mouse_of(
    action: PointerAction,
    x: u16,
    y: u16,
    button: Option<u8>,
    delta_y: Option<i16>,
) -> MousePdu {
    MousePdu {
        flags: pointer_bits(action, button),
        number_of_wheel_rotation_units: if action is Wheel {
            wheel_units(delta_y) as i16
        } else {
            0
        },
        x_position: x,
        y_position: y,
    }
}

/// The flags of a key event.
pub open spec fn key_bits(down: bool, extended: bool) -> u8 {
    if !down && extended {
        KEYBOARD_RELEASE | KEYBOARD_EXTENDED
    } else if !down {
        KEYBOARD_RELEASE
    } else if extended {
        KEYBOARD_EXTENDED
    } else {
        0
    }
}

/// The key event of a browser key: its scan code if the key has one, else the
/// one character that the key gives, else nothing. Of a character only the low
/// sixteen bits are sent.
pub open spec fn key_of(down: bool, code: Seq<char>, key: Option<Seq<char>>) -> Option<
    FastPathInputEvent,
> {
    match scancode::scancode(code) {
        Some(found) => Some(
            FastPathInputEvent::KeyboardEvent(key_bits(down, found.extended), found.code),
        ),
        None => match key {
            Some(text) if text.len() == 1 => Some(
                FastPathInputEvent::UnicodeKeyboardEvent(
                    key_bits(down, false),
                    (text[0] as u32 % 0x1_0000) as u16,
                ),
            ),
            _ => None,
        },
    }
}

/// The fast-path event of a browser event, if it has one.
pub open spec fn fast_event(event: ClientEvent) -> Option<FastPathInputEvent> {
    match event {
        ClientEvent::Pointer { action, x, y, button, delta_y } => Some(
            FastPathInputEvent::MouseEvent(mouse_of(action, x, y, button, delta_y)),
        ),
        ClientEvent::Key { down, code, key } => key_of(down, code@, text::optional(key)),
        ClientEvent::Resize { .. } => None,
    }
}

/// The slow-path event of a fast-path event, if it has one.
pub open spec fn slow_event(event: FastPathInputEvent) -> Option<InputEvent> {
    match event {
        FastPathInputEvent::KeyboardEvent(flags, code) => Some(
            InputEvent::ScanCode(
                ScanCodePdu {
                    flags: (if flags & KEYBOARD_RELEASE != 0 {
                        SCAN_CODE_RELEASE
                    } else {
                        SCAN_CODE_DOWN
                    }) | (if flags & KEYBOARD_EXTENDED != 0 {
                        SCAN_CODE_EXTENDED
                    } else {
                        0
                    }),
                    key_code: code as u16,
                },
            ),
        ),
        FastPathInputEvent::UnicodeKeyboardEvent(flags, unicode_code) => Some(
            InputEvent::Unicode(
                UnicodePdu {
                    flags: if flags & KEYBOARD_RELEASE != 0 {
                        UNICODE_RELEASE
                    } else {
                        0
                    },
                    unicode_code,
                },
            ),
        ),
        FastPathInputEvent::MouseEvent(mouse) => Some(InputEvent::Mouse(mouse)),
        FastPathInputEvent::MouseEventEx(mouse) => Some(InputEvent::MouseX(mouse)),
        FastPathInputEvent::MouseEventRel(mouse) => Some(InputEvent::MouseRel(mouse)),
        FastPathInputEvent::QoeEvent(_) => None,
        FastPathInputEvent::SyncEvent(_) => None,
    }
}

/// The slow-path events of a list of fast-path events: one for each that has
/// one, in order.
pub open spec fn slow_events(events: Seq<FastPathInputEvent>) -> Seq<InputEvent>
    decreases events.len(),
{
    if events.len() == 0 {
        Seq::empty()
    } else {
        slow_events(events.drop_last()) + one_or_none(slow_event(events.last()))
    }
}

/// A list of one item or of none.
pub open spec fn one_or_none<T>(item: Option<T>) -> Seq<T> {
    match item {
        Some(item) => seq![item],
        None => Seq::empty(),
    }
}

/// The flag of a browser mouse button.
pub fn button_flag(button: Option<u8>) -> (flag: u16)
    ensures
        flag == button_bits(button),
{
    match button {
        Some(1) => POINTER_MIDDLE_BUTTON_OR_WHEEL,
        Some(2) => POINTER_RIGHT_BUTTON,
        _ => POINTER_LEFT_BUTTON,
    }
}

/// The input events of a pointer action.
pub fn pointer_event(
    action: &PointerAction,
    x: u16,
    y: u16,
    button: Option<u8>,
    delta_y: Option<i16>,
) -> (events: Vec<FastPathInputEvent>)
    ensures
        events@ == seq![FastPathInputEvent::MouseEvent(mouse_of(*action, x, y, button, delta_y))],
{
    let mut flags: u16 = POINTER_MOVE;
    let mut number_of_wheel_rotation_units: i16 = 0;
    match action {
        PointerAction::Move => {},
        PointerAction::Down => {
            flags = flags | (POINTER_DOWN | button_flag(button));
        },
        PointerAction::Up => {
            flags = flags | button_flag(button);
        },
        PointerAction::Wheel => {
            flags = POINTER_VERTICAL_WHEEL;
            let delta: i16 = match delta_y {
                Some(delta) => delta,
                None => 0,
            };
            number_of_wheel_rotation_units = if delta < -255 {
                -255
            } else if delta > 255 {
                255
            } else {
                delta
            };
        },
    }
    let mut events: Vec<FastPathInputEvent> = Vec::new();
    events.push(
        FastPathInputEvent::MouseEvent(
            MousePdu { flags, number_of_wheel_rotation_units, x_position: x, y_position: y },
        ),
    );
    events
}

/// The low sixteen bits of a character.
fn low_bits(ch: char) -> (code: u16)
    ensures
        code == ch as u32 % 0x1_0000,
{
    let n: u32 = ch as u32;
    assert(n as u16 == n % 0x1_0000) by (bit_vector);
    #[verifier::truncate]
    let code: u16 = n as u16;
    code
}

/// The one character of a text, if it has exactly one.
fn single_char(text: &str) -> (single: Option<char>)
    ensures
        single == (if text@.len() == 1 {
            Some(text@[0])
        } else {
            None
        }),
{
    let mut chars = text.chars();
    match chars.next() {
        Some(ch) => if chars.next().is_some() {
            None
        } else {
            Some(ch)
        },
        None => None,
    }
}

/// The input events of a key.
pub fn key_event(down: bool, code: &str, key: Option<&str>) -> (events: Vec<FastPathInputEvent>)
    ensures
        events@ == one_or_none(
            key_of(
                down,
                code@,
                match key {
                    Some(text) => Some(text@),
                    None => None,
                },
            ),
        ),
{
    let mut events: Vec<FastPathInputEvent> = Vec::new();
    let mut flags: u8 = 0;
    if !down {
        flags = KEYBOARD_RELEASE;
    }
    if let Some(found) = scancode_for_code(code) {
        if found.extended {
            assert(0u8 | 0x02u8 == 0x02u8) by (bit_vector);
            flags = flags | KEYBOARD_EXTENDED;
        }
        events.push(FastPathInputEvent::KeyboardEvent(flags, found.code));
        return events;
    }
    if let Some(text) = key {
        if let Some(ch) = single_char(text) {
            events.push(FastPathInputEvent::UnicodeKeyboardEvent(flags, low_bits(ch)));
        }
    }
    events
}

/// The fast-path input events of a browser event.
pub fn input_event_from_client(event: &ClientEvent) -> (events: Vec<FastPathInputEvent>)
    ensures
        events@ == one_or_none(fast_event(*event)),
{
    match event {
        ClientEvent::Pointer { action, x, y, button, delta_y } => pointer_event(
            action,
            *x,
            *y,
            *button,
            *delta_y,
        ),
        ClientEvent::Key { down, code, key } => match key {
            Some(text) => key_event(*down, code.as_str(), Some(text.as_str())),
            None => key_event(*down, code.as_str(), None),
        },
        ClientEvent::Resize { .. } => Vec::new(),
    }
}

/// The slow-path event of a fast-path event.
pub fn slow_input_event(event: FastPathInputEvent) -> (slow: Option<InputEvent>)
    ensures
        slow == slow_event(event),
{
    match event {
        FastPathInputEvent::KeyboardEvent(flags, code) => {
            let mut slow_flags: u16 = if flags & KEYBOARD_RELEASE != 0 {
                SCAN_CODE_RELEASE
            } else {
                SCAN_CODE_DOWN
            };
            assert(slow_flags | 0 == slow_flags) by (bit_vector);
            if flags & KEYBOARD_EXTENDED != 0 {
                slow_flags = slow_flags | SCAN_CODE_EXTENDED;
            }
            Some(InputEvent::ScanCode(ScanCodePdu { flags: slow_flags, key_code: code as u16 }))
        },
        FastPathInputEvent::UnicodeKeyboardEvent(flags, unicode_code) => {
            let slow_flags: u16 = if flags & KEYBOARD_RELEASE != 0 {
                UNICODE_RELEASE
            } else {
                0
            };
            Some(InputEvent::Unicode(UnicodePdu { flags: slow_flags, unicode_code }))
        },
        FastPathInputEvent::MouseEvent(mouse) => Some(InputEvent::Mouse(mouse)),
        FastPathInputEvent::MouseEventEx(mouse) => Some(InputEvent::MouseX(mouse)),
        FastPathInputEvent::MouseEventRel(mouse) => Some(InputEvent::MouseRel(mouse)),
        FastPathInputEvent::QoeEvent(_) | FastPathInputEvent::SyncEvent(_) => None,
    }
}

/// The slow-path input events of a browser event.
pub fn slow_input_events_from_client(event: &ClientEvent) -> (events: Vec<InputEvent>)
    ensures
        events@ == slow_events(one_or_none(fast_event(*event))),
{
    let fast = input_event_from_client(event);
    let mut events: Vec<InputEvent> = Vec::new();
    let mut i: usize = 0;
    while i < fast.len()
        invariant
            i <= fast.len(),
            events@ == slow_events(fast@.take(i as int)),
        decreases fast.len() - i,
    {
        assert(fast@.take(i + 1).drop_last() =~= fast@.take(i as int));
        if let Some(slow) = slow_input_event(fast[i]) {
            events.push(slow);
        }
        assert(events@ =~= slow_events(fast@.take(i + 1)));
        i += 1;
    }
    assert(fast@.take(i as int) =~= fast@);
    events
}

}
