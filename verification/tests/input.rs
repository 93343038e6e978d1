use ironrdp_pdu::input::fast_path::KeyboardFlags;
use ironrdp_pdu::input::mouse::PointerFlags;
use ironrdp_pdu::input::scan_code::KeyboardFlags as SlowScanCodeKeyboardFlags;
use ironrdp_pdu::input::unicode::KeyboardFlags as SlowUnicodeKeyboardFlags;
use rdp2web::input::{
    button_flag, input_event_from_client, key_event, pointer_event, slow_input_event,
    slow_input_events_from_client, FastPathInputEvent, InputEvent, MousePdu, MouseRelPdu, MouseXPdu,
    KEYBOARD_EXTENDED, KEYBOARD_RELEASE, POINTER_DOWN, POINTER_LEFT_BUTTON,
    POINTER_MIDDLE_BUTTON_OR_WHEEL, POINTER_MOVE, POINTER_RIGHT_BUTTON, POINTER_VERTICAL_WHEEL,
    SCAN_CODE_DOWN, SCAN_CODE_EXTENDED, SCAN_CODE_RELEASE, UNICODE_RELEASE,
};
use rdp2web::rdp::{ClientEvent, PointerAction};
use rdp2web::scancode::scancode_for_code;

fn single_mouse_event(events: Vec<FastPathInputEvent>) -> MousePdu {
    assert_eq!(events.len(), 1);
    match events.into_iter().next().unwrap() {
        FastPathInputEvent::MouseEvent(event) => event,
        other => panic!("expected mouse event, got {other:?}"),
    }
}

fn pointer_flags(event: &MousePdu) -> PointerFlags {
    PointerFlags::from_bits_retain(event.flags)
}

#[test]
fn left_button_down_maps_to_rdp_button_press() {
    let event = single_mouse_event(pointer_event(&PointerAction::Down, 10, 20, Some(0), None));

    assert!(pointer_flags(&event).contains(PointerFlags::MOVE));
    assert!(pointer_flags(&event).contains(PointerFlags::DOWN));
    assert!(pointer_flags(&event).contains(PointerFlags::LEFT_BUTTON));
    assert_eq!(event.x_position, 10);
    assert_eq!(event.y_position, 20);
}

#[test]
fn left_button_up_maps_to_rdp_button_release() {
    let event = single_mouse_event(pointer_event(&PointerAction::Up, 10, 20, Some(0), None));

    assert!(pointer_flags(&event).contains(PointerFlags::MOVE));
    assert!(!pointer_flags(&event).contains(PointerFlags::DOWN));
    assert!(pointer_flags(&event).contains(PointerFlags::LEFT_BUTTON));
    assert_eq!(event.x_position, 10);
    assert_eq!(event.y_position, 20);
}

#[test]
fn right_button_maps_to_rdp_right_button() {
    let event = single_mouse_event(pointer_event(&PointerAction::Down, 5, 6, Some(2), None));

    assert!(pointer_flags(&event).contains(PointerFlags::DOWN));
    assert!(pointer_flags(&event).contains(PointerFlags::RIGHT_BUTTON));
    assert!(!pointer_flags(&event).contains(PointerFlags::LEFT_BUTTON));
}

#[test]
fn wheel_delta_is_clamped_to_rdp_range() {
    let event = single_mouse_event(pointer_event(&PointerAction::Wheel, 1, 2, None, Some(-511)));

    assert!(pointer_flags(&event).contains(PointerFlags::VERTICAL_WHEEL));
    assert_eq!(event.number_of_wheel_rotation_units, -255);
    assert_eq!(event.x_position, 1);
    assert_eq!(event.y_position, 2);
}

#[test]
fn left_click_maps_to_slow_path_mouse_input() {
    let event = ClientEvent::Pointer {
        action: PointerAction::Down,
        x: 10,
        y: 20,
        button: Some(0),
        delta_y: None,
    };

    let events = slow_input_events_from_client(&event);
    assert_eq!(events.len(), 1);
    match &events[0] {
        InputEvent::Mouse(event) => {
            assert!(pointer_flags(event).contains(PointerFlags::DOWN));
            assert!(pointer_flags(event).contains(PointerFlags::LEFT_BUTTON));
            assert_eq!(event.x_position, 10);
            assert_eq!(event.y_position, 20);
        }
        other => panic!("expected slow-path mouse input, got {other:?}"),
    }
}

#[test]
fn key_press_maps_to_slow_path_scancode_down() {
    let event = ClientEvent::Key {
        down: true,
        code: "ArrowLeft".to_owned(),
        key: None,
    };

    let events = slow_input_events_from_client(&event);
    assert_eq!(events.len(), 1);
    match &events[0] {
        InputEvent::ScanCode(event) => {
            let flags = SlowScanCodeKeyboardFlags::from_bits_retain(event.flags);
            assert!(flags.contains(SlowScanCodeKeyboardFlags::DOWN));
            assert!(flags.contains(SlowScanCodeKeyboardFlags::EXTENDED));
            assert_eq!(event.key_code, 0x4b);
        }
        other => panic!("expected slow-path scancode input, got {other:?}"),
    }
}

#[test]
fn maps_arrow_key_to_extended_scancode() {
    let events = key_event(true, "ArrowLeft", None);
    assert_eq!(events.len(), 1);
    match &events[0] {
        FastPathInputEvent::KeyboardEvent(flags, code) => {
            assert!(KeyboardFlags::from_bits_retain(*flags).contains(KeyboardFlags::EXTENDED));
            assert_eq!(*code, 0x4b);
        }
        other => panic!("unexpected event: {other:?}"),
    }
}

#[test]
fn maps_printable_key_to_unicode_fallback() {
    let events = key_event(true, "Unknown", Some("a"));
    assert_eq!(events.len(), 1);
    match &events[0] {
        FastPathInputEvent::UnicodeKeyboardEvent(flags, ch) => {
            assert!(!KeyboardFlags::from_bits_retain(*flags).contains(KeyboardFlags::RELEASE));
            assert_eq!(*ch, 'a' as u16);
        }
        other => panic!("unexpected event: {other:?}"),
    }
}

#[test]
fn the_bits_are_those_of_the_protocol() {
    assert_eq!(KEYBOARD_RELEASE, KeyboardFlags::RELEASE.bits());
    assert_eq!(KEYBOARD_EXTENDED, KeyboardFlags::EXTENDED.bits());
    assert_eq!(
        SCAN_CODE_EXTENDED,
        SlowScanCodeKeyboardFlags::EXTENDED.bits()
    );
    assert_eq!(SCAN_CODE_DOWN, SlowScanCodeKeyboardFlags::DOWN.bits());
    assert_eq!(SCAN_CODE_RELEASE, SlowScanCodeKeyboardFlags::RELEASE.bits());
    assert_eq!(UNICODE_RELEASE, SlowUnicodeKeyboardFlags::RELEASE.bits());
    assert_eq!(POINTER_VERTICAL_WHEEL, PointerFlags::VERTICAL_WHEEL.bits());
    assert_eq!(POINTER_MOVE, PointerFlags::MOVE.bits());
    assert_eq!(POINTER_LEFT_BUTTON, PointerFlags::LEFT_BUTTON.bits());
    assert_eq!(POINTER_RIGHT_BUTTON, PointerFlags::RIGHT_BUTTON.bits());
    assert_eq!(
        POINTER_MIDDLE_BUTTON_OR_WHEEL,
        PointerFlags::MIDDLE_BUTTON_OR_WHEEL.bits()
    );
    assert_eq!(POINTER_DOWN, PointerFlags::DOWN.bits());
}

#[test]
fn buttons_and_their_release() {
    assert_eq!(button_flag(None), POINTER_LEFT_BUTTON);
    assert_eq!(button_flag(Some(1)), POINTER_MIDDLE_BUTTON_OR_WHEEL);
    assert_eq!(button_flag(Some(7)), POINTER_LEFT_BUTTON);
    let press = single_mouse_event(pointer_event(&PointerAction::Down, 0, 0, Some(1), None));
    let release = single_mouse_event(pointer_event(&PointerAction::Up, 0, 0, Some(1), None));
    assert_eq!(press.flags, release.flags | POINTER_DOWN);
    assert_eq!(release.flags & POINTER_DOWN, 0);
}

#[test]
fn wheel_movements_keep_their_sign() {
    for (delta, units) in [
        (None, 0),
        (Some(3), 3),
        (Some(-255), -255),
        (Some(256), 255),
        (Some(i16::MIN), -255),
    ] {
        let event = single_mouse_event(pointer_event(&PointerAction::Wheel, 1, 2, None, delta));
        assert_eq!(event.number_of_wheel_rotation_units, units);
        assert_eq!(event.flags, POINTER_VERTICAL_WHEEL);
    }
    let event = single_mouse_event(pointer_event(&PointerAction::Move, 1, 2, None, Some(9)));
    assert_eq!(event.number_of_wheel_rotation_units, 0);
    assert_eq!(event.flags, POINTER_MOVE);
}

#[test]
fn a_key_is_released_with_the_code_it_was_pressed_with() {
    assert_eq!(
        key_event(true, "ControlRight", None),
        vec![FastPathInputEvent::KeyboardEvent(0x02, 0x1d)]
    );
    assert_eq!(
        key_event(false, "ControlRight", None),
        vec![FastPathInputEvent::KeyboardEvent(0x03, 0x1d)]
    );
    assert_eq!(
        key_event(false, "Unknown", Some("é")),
        vec![FastPathInputEvent::UnicodeKeyboardEvent(0x01, 0xe9)]
    );
}

#[test]
fn keys_without_one_character_send_nothing() {
    assert_eq!(key_event(true, "Unknown", None), vec![]);
    assert_eq!(key_event(true, "Unknown", Some("")), vec![]);
    assert_eq!(key_event(true, "Unknown", Some("ab")), vec![]);
    assert_eq!(
        key_event(true, "Unknown", Some("\u{1f600}")),
        vec![FastPathInputEvent::UnicodeKeyboardEvent(0, 0xf600)]
    );
}

#[test]
fn a_resize_is_no_input() {
    let event = ClientEvent::Resize {
        width: 800,
        height: 600,
    };
    assert_eq!(input_event_from_client(&event), vec![]);
    assert_eq!(slow_input_events_from_client(&event), vec![]);
}

#[test]
fn the_slow_path_says_release_or_down() {
    let slow = slow_input_event(FastPathInputEvent::KeyboardEvent(KEYBOARD_RELEASE, 0x1e));
    match slow {
        Some(InputEvent::ScanCode(pdu)) => {
            assert_eq!(pdu.flags, SCAN_CODE_RELEASE);
            assert_eq!(pdu.key_code, 0x1e);
        }
        other => panic!("unexpected event: {other:?}"),
    }
    let slow = slow_input_event(FastPathInputEvent::UnicodeKeyboardEvent(
        KEYBOARD_RELEASE,
        0x61,
    ));
    match slow {
        Some(InputEvent::Unicode(pdu)) => {
            assert_eq!(pdu.flags, UNICODE_RELEASE);
            assert_eq!(pdu.unicode_code, 0x61);
        }
        other => panic!("unexpected event: {other:?}"),
    }
}

#[test]
fn the_slow_path_passes_mice_on_and_drops_the_rest() {
    let extra = MouseXPdu {
        flags: 1,
        x_position: 2,
        y_position: 3,
    };
    let relative = MouseRelPdu {
        flags: 1,
        x_delta: -2,
        y_delta: 3,
    };
    assert_eq!(
        slow_input_event(FastPathInputEvent::MouseEventEx(extra)),
        Some(InputEvent::MouseX(extra))
    );
    assert_eq!(
        slow_input_event(FastPathInputEvent::MouseEventRel(relative)),
        Some(InputEvent::MouseRel(relative))
    );
    assert_eq!(slow_input_event(FastPathInputEvent::QoeEvent(4)), None);
    assert_eq!(slow_input_event(FastPathInputEvent::SyncEvent(4)), None);
}

#[test]
fn scan_codes_of_plain_and_extended_keys() {
    for (name, code, extended) in [
        ("Escape", 0x01, false),
        ("Digit0", 0x0b, false),
        ("Enter", 0x1c, false),
        ("Slash", 0x35, false),
        ("F10", 0x44, false),
        ("F12", 0x58, false),
        ("AltLeft", 0x38, false),
        ("AltRight", 0x38, true),
        ("Delete", 0x53, true),
        ("MetaRight", 0x5c, true),
    ] {
        let found = scancode_for_code(name).unwrap();
        assert_eq!((found.code, found.extended), (code, extended), "{name}");
    }
    assert!(scancode_for_code("").is_none());
    assert!(scancode_for_code("escape").is_none());
    assert_ne!(scancode_for_code("Home"), scancode_for_code("End"));
}
