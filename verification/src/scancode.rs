//! The keys of a browser keyboard event and the scan codes that RDP has for them.
use crate::text::same_text;
use vstd::prelude::*;

verus! {

/// A key of the PC keyboard.
#[derive(Debug, Clone, Copy, PartialEq, Eq, Structural)]
pub struct ScanCode {
    pub code: u8,
    pub extended: bool,
}

/// The codes of the keys that are sent without a prefix.
pub open spec fn basic_code(code: Seq<char>) -> Option<u8> {
    if code == "Escape"@ {
        Some(0x01)
    } else if code == "Digit1"@ {
        Some(0x02)
    } else if code == "Digit2"@ {
        Some(0x03)
    } else if code == "Digit3"@ {
        Some(0x04)
    } else if code == "Digit4"@ {
        Some(0x05)
    } else if code == "Digit5"@ {
        Some(0x06)
    } else if code == "Digit6"@ {
        Some(0x07)
    } else if code == "Digit7"@ {
        Some(0x08)
    } else if code == "Digit8"@ {
        Some(0x09)
    } else if code == "Digit9"@ {
        Some(0x0a)
    } else if code == "Digit0"@ {
        Some(0x0b)
    } else if code == "Minus"@ {
        Some(0x0c)
    } else if code == "Equal"@ {
        Some(0x0d)
    } else if code == "Backspace"@ {
        Some(0x0e)
    } else if code == "Tab"@ {
        Some(0x0f)
    } else if code == "KeyQ"@ {
        Some(0x10)
    } else if code == "KeyW"@ {
        Some(0x11)
    } else if code == "KeyE"@ {
        Some(0x12)
    } else if code == "KeyR"@ {
        Some(0x13)
    } else if code == "KeyT"@ {
        Some(0x14)
    } else if code == "KeyY"@ {
        Some(0x15)
    } else if code == "KeyU"@ {
        Some(0x16)
    } else if code == "KeyI"@ {
        Some(0x17)
    } else if code == "KeyO"@ {
        Some(0x18)
    } else if code == "KeyP"@ {
        Some(0x19)
    } else if code == "BracketLeft"@ {
        Some(0x1a)
    } else if code == "BracketRight"@ {
        Some(0x1b)
    } else if code == "Enter"@ {
        Some(0x1c)
    } else if code == "ControlLeft"@ {
        Some(0x1d)
    } else if code == "KeyA"@ {
        Some(0x1e)
    } else if code == "KeyS"@ {
        Some(0x1f)
    } else if code == "KeyD"@ {
        Some(0x20)
    } else if code == "KeyF"@ {
        Some(0x21)
    } else if code == "KeyG"@ {
        Some(0x22)
    } else if code == "KeyH"@ {
        Some(0x23)
    } else if code == "KeyJ"@ {
        Some(0x24)
    } else if code == "KeyK"@ {
        Some(0x25)
    } else if code == "KeyL"@ {
        Some(0x26)
    } else if code == "Semicolon"@ {
        Some(0x27)
    } else if code == "Quote"@ {
        Some(0x28)
    } else if code == "Backquote"@ {
        Some(0x29)
    } else if code == "ShiftLeft"@ {
        Some(0x2a)
    } else if code == "Backslash"@ {
        Some(0x2b)
    } else if code == "KeyZ"@ {
        Some(0x2c)
    } else if code == "KeyX"@ {
        Some(0x2d)
    } else if code == "KeyC"@ {
        Some(0x2e)
    } else if code == "KeyV"@ {
        Some(0x2f)
    } else if code == "KeyB"@ {
        Some(0x30)
    } else if code == "KeyN"@ {
        Some(0x31)
    } else if code == "KeyM"@ {
        Some(0x32)
    } else if code == "Comma"@ {
        Some(0x33)
    } else if code == "Period"@ {
        Some(0x34)
    } else if code == "Slash"@ {
        Some(0x35)
    } else if code == "ShiftRight"@ {
        Some(0x36)
    } else if code == "AltLeft"@ {
        Some(0x38)
    } else if code == "Space"@ {
        Some(0x39)
    } else if code == "CapsLock"@ {
        Some(0x3a)
    } else if code == "F1"@ {
        Some(0x3b)
    } else if code == "F2"@ {
        Some(0x3c)
    } else if code == "F3"@ {
        Some(0x3d)
    } else if code == "F4"@ {
        Some(0x3e)
    } else if code == "F5"@ {
        Some(0x3f)
    } else if code == "F6"@ {
        Some(0x40)
    } else if code == "F7"@ {
        Some(0x41)
    } else if code == "F8"@ {
        Some(0x42)
    } else if code == "F9"@ {
        Some(0x43)
    } else if code == "F10"@ {
        Some(0x44)
    } else if code == "F11"@ {
        Some(0x57)
    } else if code == "F12"@ {
        Some(0x58)
    } else {
        None
    }
}

/// The codes of the keys that are sent with the extended prefix.
pub open spec fn extended_code(code: Seq<char>) -> Option<u8> {
    if code == "ControlRight"@ {
        Some(0x1d)
    } else if code == "AltRight"@ {
        Some(0x38)
    } else if code == "ArrowUp"@ {
        Some(0x48)
    } else if code == "ArrowLeft"@ {
        Some(0x4b)
    } else if code == "ArrowRight"@ {
        Some(0x4d)
    } else if code == "ArrowDown"@ {
        Some(0x50)
    } else if code == "Insert"@ {
        Some(0x52)
    } else if code == "Delete"@ {
        Some(0x53)
    } else if code == "Home"@ {
        Some(0x47)
    } else if code == "End"@ {
        Some(0x4f)
    } else if code == "PageUp"@ {
        Some(0x49)
    } else if code == "PageDown"@ {
        Some(0x51)
    } else if code == "MetaLeft"@ {
        Some(0x5b)
    } else if code == "MetaRight"@ {
        Some(0x5c)
    } else {
        None
    }
}

/// The key with a plain scan code.
pub open spec fn basic_name(code: u8) -> Seq<char> {
    if code == 0x01 {
        "Escape"@
    } else if code == 0x02 {
        "Digit1"@
    } else if code == 0x03 {
        "Digit2"@
    } else if code == 0x04 {
        "Digit3"@
    } else if code == 0x05 {
        "Digit4"@
    } else if code == 0x06 {
        "Digit5"@
    } else if code == 0x07 {
        "Digit6"@
    } else if code == 0x08 {
        "Digit7"@
    } else if code == 0x09 {
        "Digit8"@
    } else if code == 0x0a {
        "Digit9"@
    } else if code == 0x0b {
        "Digit0"@
    } else if code == 0x0c {
        "Minus"@
    } else if code == 0x0d {
        "Equal"@
    } else if code == 0x0e {
        "Backspace"@
    } else if code == 0x0f {
        "Tab"@
    } else if code == 0x10 {
        "KeyQ"@
    } else if code == 0x11 {
        "KeyW"@
    } else if code == 0x12 {
        "KeyE"@
    } else if code == 0x13 {
        "KeyR"@
    } else if code == 0x14 {
        "KeyT"@
    } else if code == 0x15 {
        "KeyY"@
    } else if code == 0x16 {
        "KeyU"@
    } else if code == 0x17 {
        "KeyI"@
    } else if code == 0x18 {
        "KeyO"@
    } else if code == 0x19 {
        "KeyP"@
    } else if code == 0x1a {
        "BracketLeft"@
    } else if code == 0x1b {
        "BracketRight"@
    } else if code == 0x1c {
        "Enter"@
    } else if code == 0x1d {
        "ControlLeft"@
    } else if code == 0x1e {
        "KeyA"@
    } else if code == 0x1f {
        "KeyS"@
    } else if code == 0x20 {
        "KeyD"@
    } else if code == 0x21 {
        "KeyF"@
    } else if code == 0x22 {
        "KeyG"@
    } else if code == 0x23 {
        "KeyH"@
    } else if code == 0x24 {
        "KeyJ"@
    } else if code == 0x25 {
        "KeyK"@
    } else if code == 0x26 {
        "KeyL"@
    } else if code == 0x27 {
        "Semicolon"@
    } else if code == 0x28 {
        "Quote"@
    } else if code == 0x29 {
        "Backquote"@
    } else if code == 0x2a {
        "ShiftLeft"@
    } else if code == 0x2b {
        "Backslash"@
    } else if code == 0x2c {
        "KeyZ"@
    } else if code == 0x2d {
        "KeyX"@
    } else if code == 0x2e {
        "KeyC"@
    } else if code == 0x2f {
        "KeyV"@
    } else if code == 0x30 {
        "KeyB"@
    } else if code == 0x31 {
        "KeyN"@
    } else if code == 0x32 {
        "KeyM"@
    } else if code == 0x33 {
        "Comma"@
    } else if code == 0x34 {
        "Period"@
    } else if code == 0x35 {
        "Slash"@
    } else if code == 0x36 {
        "ShiftRight"@
    } else if code == 0x38 {
        "AltLeft"@
    } else if code == 0x39 {
        "Space"@
    } else if code == 0x3a {
        "CapsLock"@
    } else if code == 0x3b {
        "F1"@
    } else if code == 0x3c {
        "F2"@
    } else if code == 0x3d {
        "F3"@
    } else if code == 0x3e {
        "F4"@
    } else if code == 0x3f {
        "F5"@
    } else if code == 0x40 {
        "F6"@
    } else if code == 0x41 {
        "F7"@
    } else if code == 0x42 {
        "F8"@
    } else if code == 0x43 {
        "F9"@
    } else if code == 0x44 {
        "F10"@
    } else if code == 0x57 {
        "F11"@
    } else if code == 0x58 {
        "F12"@
    } else {
        Seq::empty()
    }
}

/// The key with an extended scan code.
pub open spec fn extended_name(code: u8) -> Seq<char> {
    if code == 0x1d {
        "ControlRight"@
    } else if code == 0x38 {
        "AltRight"@
    } else if code == 0x48 {
        "ArrowUp"@
    } else if code == 0x4b {
        "ArrowLeft"@
    } else if code == 0x4d {
        "ArrowRight"@
    } else if code == 0x50 {
        "ArrowDown"@
    } else if code == 0x52 {
        "Insert"@
    } else if code == 0x53 {
        "Delete"@
    } else if code == 0x47 {
        "Home"@
    } else if code == 0x4f {
        "End"@
    } else if code == 0x49 {
        "PageUp"@
    } else if code == 0x51 {
        "PageDown"@
    } else if code == 0x5b {
        "MetaLeft"@
    } else if code == 0x5c {
        "MetaRight"@
    } else {
        Seq::empty()
    }
}

/// The scan code of a key, by the name that the browser gives the key.
pub open spec fn scancode(code: Seq<char>) -> Option<ScanCode> {
    match basic_code(code) {
        Some(basic) => Some(ScanCode { code: basic, extended: false }),
        None => match extended_code(code) {
            Some(extended) => Some(ScanCode { code: extended, extended: true }),
            None => None,
        },
    }
}

/// The name that the browser gives the key with this scan code.
pub open spec fn key_name(scancode: ScanCode) -> Seq<char> {
    if scancode.extended {
        extended_name(scancode.code)
    } else {
        basic_name(scancode.code)
    }
}

/// Looks a key up among those with a plain scan code.
fn find_basic_code(code: &str) -> (found: Option<u8>)
    ensures
        found == basic_code(code@),
{
    if same_text(code, "Escape") {
        Some(0x01)
    } else if same_text(code, "Digit1") {
        Some(0x02)
    } else if same_text(code, "Digit2") {
        Some(0x03)
    } else if same_text(code, "Digit3") {
        Some(0x04)
    } else if same_text(code, "Digit4") {
        Some(0x05)
    } else if same_text(code, "Digit5") {
        Some(0x06)
    } else if same_text(code, "Digit6") {
        Some(0x07)
    } else if same_text(code, "Digit7") {
        Some(0x08)
    } else if same_text(code, "Digit8") {
        Some(0x09)
    } else if same_text(code, "Digit9") {
        Some(0x0a)
    } else if same_text(code, "Digit0") {
        Some(0x0b)
    } else if same_text(code, "Minus") {
        Some(0x0c)
    } else if same_text(code, "Equal") {
        Some(0x0d)
    } else if same_text(code, "Backspace") {
        Some(0x0e)
    } else if same_text(code, "Tab") {
        Some(0x0f)
    } else if same_text(code, "KeyQ") {
        Some(0x10)
    } else if same_text(code, "KeyW") {
        Some(0x11)
    } else if same_text(code, "KeyE") {
        Some(0x12)
    } else if same_text(code, "KeyR") {
        Some(0x13)
    } else if same_text(code, "KeyT") {
        Some(0x14)
    } else if same_text(code, "KeyY") {
        Some(0x15)
    } else if same_text(code, "KeyU") {
        Some(0x16)
    } else if same_text(code, "KeyI") {
        Some(0x17)
    } else if same_text(code, "KeyO") {
        Some(0x18)
    } else if same_text(code, "KeyP") {
        Some(0x19)
    } else if same_text(code, "BracketLeft") {
        Some(0x1a)
    } else if same_text(code, "BracketRight") {
        Some(0x1b)
    } else if same_text(code, "Enter") {
        Some(0x1c)
    } else if same_text(code, "ControlLeft") {
        Some(0x1d)
    } else if same_text(code, "KeyA") {
        Some(0x1e)
    } else if same_text(code, "KeyS") {
        Some(0x1f)
    } else if same_text(code, "KeyD") {
        Some(0x20)
    } else if same_text(code, "KeyF") {
        Some(0x21)
    } else if same_text(code, "KeyG") {
        Some(0x22)
    } else if same_text(code, "KeyH") {
        Some(0x23)
    } else if same_text(code, "KeyJ") {
        Some(0x24)
    } else if same_text(code, "KeyK") {
        Some(0x25)
    } else if same_text(code, "KeyL") {
        Some(0x26)
    } else if same_text(code, "Semicolon") {
        Some(0x27)
    } else if same_text(code, "Quote") {
        Some(0x28)
    } else if same_text(code, "Backquote") {
        Some(0x29)
    } else if same_text(code, "ShiftLeft") {
        Some(0x2a)
    } else if same_text(code, "Backslash") {
        Some(0x2b)
    } else if same_text(code, "KeyZ") {
        Some(0x2c)
    } else if same_text(code, "KeyX") {
        Some(0x2d)
    } else if same_text(code, "KeyC") {
        Some(0x2e)
    } else if same_text(code, "KeyV") {
        Some(0x2f)
    } else if same_text(code, "KeyB") {
        Some(0x30)
    } else if same_text(code, "KeyN") {
        Some(0x31)
    } else if same_text(code, "KeyM") {
        Some(0x32)
    } else if same_text(code, "Comma") {
        Some(0x33)
    } else if same_text(code, "Period") {
        Some(0x34)
    } else if same_text(code, "Slash") {
        Some(0x35)
    } else if same_text(code, "ShiftRight") {
        Some(0x36)
    } else if same_text(code, "AltLeft") {
        Some(0x38)
    } else if same_text(code, "Space") {
        Some(0x39)
    } else if same_text(code, "CapsLock") {
        Some(0x3a)
    } else if same_text(code, "F1") {
        Some(0x3b)
    } else if same_text(code, "F2") {
        Some(0x3c)
    } else if same_text(code, "F3") {
        Some(0x3d)
    } else if same_text(code, "F4") {
        Some(0x3e)
    } else if same_text(code, "F5") {
        Some(0x3f)
    } else if same_text(code, "F6") {
        Some(0x40)
    } else if same_text(code, "F7") {
        Some(0x41)
    } else if same_text(code, "F8") {
        Some(0x42)
    } else if same_text(code, "F9") {
        Some(0x43)
    } else if same_text(code, "F10") {
        Some(0x44)
    } else if same_text(code, "F11") {
        Some(0x57)
    } else if same_text(code, "F12") {
        Some(0x58)
    } else {
        None
    }
}

/// Looks a key up among those with an extended scan code.
fn find_extended_code(code: &str) -> (found: Option<u8>)
    ensures
        found == extended_code(code@),
{
    if same_text(code, "ControlRight") {
        Some(0x1d)
    } else if same_text(code, "AltRight") {
        Some(0x38)
    } else if same_text(code, "ArrowUp") {
        Some(0x48)
    } else if same_text(code, "ArrowLeft") {
        Some(0x4b)
    } else if same_text(code, "ArrowRight") {
        Some(0x4d)
    } else if same_text(code, "ArrowDown") {
        Some(0x50)
    } else if same_text(code, "Insert") {
        Some(0x52)
    } else if same_text(code, "Delete") {
        Some(0x53)
    } else if same_text(code, "Home") {
        Some(0x47)
    } else if same_text(code, "End") {
        Some(0x4f)
    } else if same_text(code, "PageUp") {
        Some(0x49)
    } else if same_text(code, "PageDown") {
        Some(0x51)
    } else if same_text(code, "MetaLeft") {
        Some(0x5b)
    } else if same_text(code, "MetaRight") {
        Some(0x5c)
    } else {
        None
    }
}

/// The scan code of a key, by the name that the browser gives the key.
pub fn scancode_for_code(code: &str) -> (found: Option<ScanCode>)
    ensures
        found == scancode(code@),
{
    match find_basic_code(code) {
        Some(basic) => Some(ScanCode { code: basic, extended: false }),
        None => match find_extended_code(code) {
            Some(extended) => Some(ScanCode { code: extended, extended: true }),
            None => None,
        },
    }
}

/// A scan code names its key: no two keys share one.
pub proof fn law_scancode_names_key(code: Seq<char>)
    ensures
        scancode(code) matches Some(found) ==> key_name(found) == code,
{
}

/// Keys with the same scan code are the same key.
pub proof fn law_scancode_injective(a: Seq<char>, b: Seq<char>)
    requires
        scancode(a) is Some,
        scancode(a) == scancode(b),
    ensures
        a == b,
{
    law_scancode_names_key(a);
    law_scancode_names_key(b);
}

}
