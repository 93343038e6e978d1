//! What holds of the input events of every browser event.
use crate::input;
use crate::input::{FastPathInputEvent, InputEvent};
use crate::rdp::{ClientEvent, PointerAction};
use crate::scancode;
use vstd::prelude::*;

verus! {

/// The slow-path events that are sent for a browser event.
pub open spec fn sent(event: ClientEvent) -> Seq<InputEvent> {
    input::slow_events(input::one_or_none(input::fast_event(event)))
}

/// Whether every bit of `part` is set in `bits`.
pub open spec fn contains(bits: u16, part: u16) -> bool {
    bits & part == part
}

/// The slow path loses nothing: a browser event is sent as exactly one event if
/// it has an input event, and as none if it has not.
pub proof fn law_slow_path_is_complete(event: ClientEvent)
    ensures
        sent(event).len() == input::one_or_none(input::fast_event(event)).len() <= 1,
        input::fast_event(event) matches Some(fast) ==> sent(event) == input::one_or_none(
            input::slow_event(fast),
        ),
{
    reveal_with_fuel(input::slow_events, 2);
    if let Some(fast) = input::fast_event(event) {
        let one = seq![fast];
        assert(one.drop_last() =~= Seq::empty());
        assert(sent(event) =~= input::one_or_none(input::slow_event(fast)));
    }
}

/// A resize is no input.
pub proof fn law_resize_sends_no_input(width: u16, height: u16)
    ensures
        sent(ClientEvent::Resize { width, height }) == Seq::<InputEvent>::empty(),
{
}

/// Every pointer event is sent as one mouse event at the pointer's position. Its
/// wheel movement lies between -255 and 255, and is 0 but for the wheel.
pub proof fn law_pointer_keeps_position(
    action: PointerAction,
    x: u16,
    y: u16,
    button: Option<u8>,
    delta_y: Option<i16>,
)
    ensures
        sent(ClientEvent::Pointer { action, x, y, button, delta_y }) == seq![
            InputEvent::Mouse(input::mouse_of(action, x, y, button, delta_y)),
        ],
        ({
            let mouse = input::mouse_of(action, x, y, button, delta_y);
            &&& mouse.x_position == x
            &&& mouse.y_position == y
            &&& -255 <= mouse.number_of_wheel_rotation_units <= 255
            &&& action !is Wheel ==> mouse.number_of_wheel_rotation_units == 0
        }),
{
    law_slow_path_is_complete(ClientEvent::Pointer { action, x, y, button, delta_y });
}

/// Pressing a button and letting it go differ in the one bit that says down:
/// both name the same button, and both move the pointer.
pub proof fn law_button_release_undoes_press(button: Option<u8>)
    ensures
        ({
            let press = input::pointer_bits(PointerAction::Down, button);
            let release = input::pointer_bits(PointerAction::Up, button);
            &&& press == release | input::POINTER_DOWN
            &&& contains(press, input::POINTER_DOWN)
            &&& !contains(release, input::POINTER_DOWN)
            &&& contains(press, input::button_bits(button))
            &&& contains(release, input::button_bits(button))
            &&& contains(press, input::POINTER_MOVE)
            &&& contains(release, input::POINTER_MOVE)
        }),
{
    let b = input::button_bits(button);
    assert(b == 0x1000u16 || b == 0x2000u16 || b == 0x4000u16);
    assert(b == 0x1000u16 || b == 0x2000u16 || b == 0x4000u16 ==> {
        &&& 0x0800u16 | (0x8000u16 | b) == (0x0800u16 | b) | 0x8000u16
        &&& (0x0800u16 | (0x8000u16 | b)) & 0x8000u16 == 0x8000u16
        &&& (0x0800u16 | b) & 0x8000u16 != 0x8000u16
        &&& (0x0800u16 | (0x8000u16 | b)) & b == b
        &&& (0x0800u16 | b) & b == b
        &&& (0x0800u16 | (0x8000u16 | b)) & 0x0800u16 == 0x0800u16
        &&& (0x0800u16 | b) & 0x0800u16 == 0x0800u16
    }) by (bit_vector);
}

/// A press names one button only.
pub proof fn law_press_names_one_button(action: PointerAction, button: Option<u8>, other: u16)
    requires
        action is Down || action is Up,
        other == input::POINTER_LEFT_BUTTON || other == input::POINTER_RIGHT_BUTTON || other
            == input::POINTER_MIDDLE_BUTTON_OR_WHEEL,
    ensures
        contains(input::pointer_bits(action, button), other) == (other == input::button_bits(
            button,
        )),
{
    let b = input::button_bits(button);
    assert((b == 0x1000u16 || b == 0x2000u16 || b == 0x4000u16) && (other == 0x1000u16 || other
        == 0x2000u16 || other == 0x4000u16) ==> {
        &&& ((0x0800u16 | (0x8000u16 | b)) & other == other) == (other == b)
        &&& ((0x0800u16 | b) & other == other) == (other == b)
    }) by (bit_vector);
}

/// Pressing a key and letting it go send the same code, and differ in the one
/// bit that says release. One is sent exactly if the other is.
pub proof fn law_key_release_undoes_press(code: Seq<char>, key: Option<Seq<char>>)
    ensures
        match input::key_of(true, code, key) {
            Some(FastPathInputEvent::KeyboardEvent(flags, scan)) => {
                &&& flags & input::KEYBOARD_RELEASE == 0
                &&& input::key_of(false, code, key) == Some(
                    FastPathInputEvent::KeyboardEvent(flags | input::KEYBOARD_RELEASE, scan),
                )
            },
            Some(FastPathInputEvent::UnicodeKeyboardEvent(flags, ch)) => {
                &&& flags & input::KEYBOARD_RELEASE == 0
                &&& input::key_of(false, code, key) == Some(
                    FastPathInputEvent::UnicodeKeyboardEvent(flags | input::KEYBOARD_RELEASE, ch),
                )
            },
            Some(_) => false,
            None => input::key_of(false, code, key) is None,
        },
{
    assert(0u8 & 0x01u8 == 0 && 0x02u8 & 0x01u8 == 0 && 0u8 | 0x01u8 == 0x01u8 && 0x02u8 | 0x01u8
        == 0x01u8 | 0x02u8) by (bit_vector);
}

/// What the slow path says of a key: exactly one of down and release, release
/// exactly when the key was let go, and the key's own scan code.
pub proof fn law_key_on_slow_path(down: bool, code: String, key: Option<String>)
    requires
        scancode::scancode(code@) is Some,
    ensures
        ({
            let found = scancode::scancode(code@)->0;
            &&& sent(ClientEvent::Key { down, code, key }).len() == 1
            &&& sent(ClientEvent::Key { down, code, key })[0] matches InputEvent::ScanCode(pdu)
            &&& pdu.key_code == found.code
            &&& contains(pdu.flags, input::SCAN_CODE_DOWN) == down
            &&& contains(pdu.flags, input::SCAN_CODE_RELEASE) == !down
            &&& contains(pdu.flags, input::SCAN_CODE_EXTENDED) == found.extended
        }),
{
    let event = ClientEvent::Key { down, code, key };
    law_slow_path_is_complete(event);
    assert(0u8 & 0x01u8 == 0 && 0u8 & 0x02u8 == 0 && 0x01u8 & 0x01u8 != 0 && 0x01u8 & 0x02u8 == 0
        && 0x02u8 & 0x01u8 == 0 && 0x02u8 & 0x02u8 != 0 && (0x01u8 | 0x02u8) & 0x01u8 != 0
        && (0x01u8 | 0x02u8) & 0x02u8 != 0) by (bit_vector);
    assert(forall|a: u16, b: u16|
        (a == 0x4000u16 || a == 0x8000u16) && (b == 0u16 || b == 0x0100u16) ==> {
            &&& ((#[trigger] (a | b)) & 0x4000u16 == 0x4000u16) == (a == 0x4000u16)
            &&& ((a | b) & 0x8000u16 == 0x8000u16) == (a == 0x8000u16)
            &&& ((a | b) & 0x0100u16 == 0x0100u16) == (b == 0x0100u16)
        }) by (bit_vector);
}

/// What a pointer event is sent as, from what the browser says: where the pointer
/// is; whether it moved, which is all but the wheel; whether a button went down;
/// which button, 1 being the middle one, 2 the right one and any other the left
/// one; and, of the wheel alone, how far it turned, to the same side and by the
/// same amount up to 255.
pub proof fn law_pointer_says_what_was_done(
    action: PointerAction,
    x: u16,
    y: u16,
    button: Option<u8>,
    delta_y: Option<i16>,
)
    ensures
        ({
            let events = sent(ClientEvent::Pointer { action, x, y, button, delta_y });
            let delta = match delta_y {
                Some(delta) => delta as int,
                None => 0,
            };
            let pressed = action is Down || action is Up;
            &&& events.len() == 1
            &&& events[0] matches InputEvent::Mouse(mouse)
            &&& mouse.x_position == x
            &&& mouse.y_position == y
            &&& mouse.flags & 0x0800 != 0 <==> action !is Wheel
            &&& mouse.flags & 0x0200 != 0 <==> action is Wheel
            &&& mouse.flags & 0x8000 != 0 <==> action is Down
            &&& mouse.flags & 0x4000 != 0 <==> pressed && button == Some(1u8)
            &&& mouse.flags & 0x2000 != 0 <==> pressed && button == Some(2u8)
            &&& mouse.flags & 0x1000 != 0 <==> pressed && button != Some(1u8) && button != Some(2u8)
            &&& mouse.flags & 0x05ff == 0
            &&& action !is Wheel ==> mouse.number_of_wheel_rotation_units == 0
            &&& action is Wheel && -255 <= delta <= 255 ==> mouse.number_of_wheel_rotation_units
                == delta
            &&& action is Wheel && delta < -255 ==> mouse.number_of_wheel_rotation_units == -255
            &&& action is Wheel && delta > 255 ==> mouse.number_of_wheel_rotation_units == 255
        }),
{
    law_slow_path_is_complete(ClientEvent::Pointer { action, x, y, button, delta_y });
    assert(0x0800u16 | (0x8000u16 | 0x1000u16) == 0x9800u16 && 0x0800u16 | (0x8000u16 | 0x2000u16)
        == 0xa800u16 && 0x0800u16 | (0x8000u16 | 0x4000u16) == 0xc800u16 && 0x0800u16 | 0x1000u16
        == 0x1800u16 && 0x0800u16 | 0x2000u16 == 0x2800u16 && 0x0800u16 | 0x4000u16 == 0x4800u16)
        by (bit_vector);
    let f = input::pointer_bits(action, button);
    assert(f == match action {
        PointerAction::Move => 0x0800u16,
        PointerAction::Wheel => 0x0200u16,
        PointerAction::Down => match button {
            Some(1) => 0xc800u16,
            Some(2) => 0xa800u16,
            _ => 0x9800u16,
        },
        PointerAction::Up => match button {
            Some(1) => 0x4800u16,
            Some(2) => 0x2800u16,
            _ => 0x1800u16,
        },
    });
    assert({
        &&& (f & 0x0800u16 != 0) == (f != 0x0200u16)
        &&& (f & 0x0200u16 != 0) == (f == 0x0200u16)
        &&& (f & 0x8000u16 != 0) == (f == 0x9800u16 || f == 0xa800u16 || f == 0xc800u16)
        &&& (f & 0x4000u16 != 0) == (f == 0xc800u16 || f == 0x4800u16)
        &&& (f & 0x2000u16 != 0) == (f == 0xa800u16 || f == 0x2800u16)
        &&& (f & 0x1000u16 != 0) == (f == 0x9800u16 || f == 0x1800u16)
        &&& f & 0x05ffu16 == 0
    }) by (bit_vector)
        requires
            f == 0x0800u16 || f == 0x0200u16 || f == 0x9800u16 || f == 0xa800u16 || f == 0xc800u16
                || f == 0x1800u16 || f == 0x2800u16 || f == 0x4800u16,
    ;
}

/// Turning the wheel the other way turns the desktop's wheel the other way, by as
/// much, and turning it further never turns it less.
pub proof fn law_wheel_turns_with_the_browser(x: u16, y: u16, button: Option<u8>, one: i16, two: i16)
    ensures
        ({
            let turned = |delta: i16|
                sent(
                    ClientEvent::Pointer {
                        action: PointerAction::Wheel,
                        x,
                        y,
                        button,
                        delta_y: Some(delta),
                    },
                )[0]->Mouse_0.number_of_wheel_rotation_units;
            &&& one == -two ==> turned(one) == -turned(two)
            &&& one <= two ==> turned(one) <= turned(two)
            &&& one > 0 <==> turned(one) > 0
            &&& one < 0 <==> turned(one) < 0
        }),
{
    law_pointer_says_what_was_done(PointerAction::Wheel, x, y, button, Some(one));
    law_pointer_says_what_was_done(PointerAction::Wheel, x, y, button, Some(two));
}

/// What a key is sent as, from what the browser says. A key of the table is sent
/// by its scan code, whatever it writes. Any other key is sent as the character
/// that it writes, if it writes exactly one, and otherwise not at all.
pub proof fn law_key_says_what_was_done(down: bool, code: String, key: Option<String>)
    ensures
        ({
            let events = sent(ClientEvent::Key { down, code, key });
            match scancode::scancode(code@) {
                Some(found) => {
                    &&& events.len() == 1
                    &&& events[0] matches InputEvent::ScanCode(pdu)
                    &&& pdu.key_code == found.code
                    &&& pdu.flags & 0x4000 != 0 <==> down
                    &&& pdu.flags & 0x8000 != 0 <==> !down
                    &&& pdu.flags & 0x0100 != 0 <==> found.extended
                    &&& pdu.flags & 0x3eff == 0
                },
                None => if key is Some && key->Some_0@.len() == 1 {
                    let ch = key->Some_0@[0] as u32;
                    &&& events.len() == 1
                    &&& events[0] matches InputEvent::Unicode(pdu)
                    &&& ch <= 0xffff ==> pdu.unicode_code == ch
                    &&& (ch - pdu.unicode_code) % 0x1_0000 == 0
                    &&& pdu.flags & 0x8000 != 0 <==> !down
                    &&& pdu.flags & 0x7fff == 0
                } else {
                    events.len() == 0
                },
            }
        }),
{
    let event = ClientEvent::Key { down, code, key };
    law_slow_path_is_complete(event);
    assert(0u8 & 0x01u8 == 0 && 0u8 & 0x02u8 == 0 && 0x01u8 & 0x01u8 != 0 && 0x01u8 & 0x02u8 == 0
        && 0x02u8 & 0x01u8 == 0 && 0x02u8 & 0x02u8 != 0 && (0x01u8 | 0x02u8) & 0x01u8 != 0
        && (0x01u8 | 0x02u8) & 0x02u8 != 0) by (bit_vector);
    assert(forall|a: u16, b: u16|
        (a == 0x4000u16 || a == 0x8000u16) && (b == 0u16 || b == 0x0100u16) ==> {
            &&& ((#[trigger] (a | b)) & 0x4000u16 != 0) == (a == 0x4000u16)
            &&& ((a | b) & 0x8000u16 != 0) == (a == 0x8000u16)
            &&& ((a | b) & 0x0100u16 != 0) == (b == 0x0100u16)
            &&& (a | b) & 0x3effu16 == 0
        }) by (bit_vector);
    assert(0x8000u16 & 0x8000u16 != 0 && 0u16 & 0x8000u16 == 0 && 0x8000u16 & 0x7fffu16 == 0
        && 0u16 & 0x7fffu16 == 0) by (bit_vector);
}

/// What the fast path says of an event, and what the slow path says of the same
/// event: the mouse as it is, a key with one bit for down or release and one for
/// extended, a character with one bit for release; what the slow path has no word
/// for is left out.
pub proof fn law_slow_path_says_the_same(event: FastPathInputEvent)
    ensures
        match event {
            FastPathInputEvent::MouseEvent(mouse) => input::slow_event(event) == Some(
                InputEvent::Mouse(mouse),
            ),
            FastPathInputEvent::MouseEventEx(mouse) => input::slow_event(event) == Some(
                InputEvent::MouseX(mouse),
            ),
            FastPathInputEvent::MouseEventRel(mouse) => input::slow_event(event) == Some(
                InputEvent::MouseRel(mouse),
            ),
            FastPathInputEvent::QoeEvent(_) => input::slow_event(event) is None,
            FastPathInputEvent::SyncEvent(_) => input::slow_event(event) is None,
            FastPathInputEvent::KeyboardEvent(flags, scan) => {
                &&& input::slow_event(event) matches Some(InputEvent::ScanCode(pdu))
                &&& pdu.key_code == scan
                &&& pdu.flags & 0x8000 != 0 <==> flags & 0x01 != 0
                &&& pdu.flags & 0x4000 != 0 <==> flags & 0x01 == 0
                &&& pdu.flags & 0x0100 != 0 <==> flags & 0x02 != 0
                &&& pdu.flags & 0x3eff == 0
            },
            FastPathInputEvent::UnicodeKeyboardEvent(flags, ch) => {
                &&& input::slow_event(event) matches Some(InputEvent::Unicode(pdu))
                &&& pdu.unicode_code == ch
                &&& pdu.flags & 0x8000 != 0 <==> flags & 0x01 != 0
                &&& pdu.flags & 0x7fff == 0
            },
        },
{
    assert(forall|a: u16, b: u16|
        (a == 0x4000u16 || a == 0x8000u16) && (b == 0u16 || b == 0x0100u16) ==> {
            &&& ((#[trigger] (a | b)) & 0x4000u16 != 0) == (a == 0x4000u16)
            &&& ((a | b) & 0x8000u16 != 0) == (a == 0x8000u16)
            &&& ((a | b) & 0x0100u16 != 0) == (b == 0x0100u16)
            &&& (a | b) & 0x3effu16 == 0
        }) by (bit_vector);
    assert(0x8000u16 & 0x8000u16 != 0 && 0u16 & 0x8000u16 == 0 && 0x8000u16 & 0x7fffu16 == 0
        && 0u16 & 0x7fffu16 == 0) by (bit_vector);
}

/// The fast path says of a key what the browser says: one bit for release, one
/// for extended, and no other.
pub proof fn law_fast_key_says_what_was_done(down: bool, code: Seq<char>, key: Option<Seq<char>>)
    ensures
        match scancode::scancode(code) {
            Some(found) => {
                &&& input::key_of(down, code, key) matches Some(
                    FastPathInputEvent::KeyboardEvent(flags, scan),
                )
                &&& scan == found.code
                &&& flags & 0x01 != 0 <==> !down
                &&& flags & 0x02 != 0 <==> found.extended
                &&& flags & 0xfc == 0
            },
            None => if key is Some && key->Some_0.len() == 1 {
                &&& input::key_of(down, code, key) matches Some(
                    FastPathInputEvent::UnicodeKeyboardEvent(flags, ch),
                )
                &&& (key->Some_0[0] as u32 - ch) % 0x1_0000 == 0
                &&& flags & 0x01 != 0 <==> !down
                &&& flags & 0xfe == 0
            } else {
                input::key_of(down, code, key) is None
            },
        },
{
    assert(0u8 & 0x01u8 == 0 && 0u8 & 0x02u8 == 0 && 0x01u8 & 0x01u8 != 0 && 0x01u8 & 0x02u8 == 0
        && 0x02u8 & 0x01u8 == 0 && 0x02u8 & 0x02u8 != 0 && (0x01u8 | 0x02u8) & 0x01u8 != 0
        && (0x01u8 | 0x02u8) & 0x02u8 != 0 && 0u8 & 0xfcu8 == 0 && 0x01u8 & 0xfcu8 == 0 && 0x02u8
        & 0xfcu8 == 0 && (0x01u8 | 0x02u8) & 0xfcu8 == 0 && 0u8 & 0xfeu8 == 0 && 0x01u8 & 0xfeu8
        == 0) by (bit_vector);
}

}
