//! What holds of the key table: every key is found, and where it lies on the
//! keyboard says what its scan code is.
use crate::scancode;
use crate::scancode::ScanCode;
use vstd::prelude::*;

verus! {

/// A number that tells the names of the keys apart: their length, their first
/// character and their last two.
#[verifier::opaque]
spec fn mark(name: Seq<char>) -> int {
    name.len() * 0x100_0000 + name[0] as u32 * 0x1_0000 + name[name.len() - 2] as u32 * 0x100
        + name[name.len() - 1] as u32
}

proof fn lemma_marks_a()
    ensures
        mark("Escape"@) == 0x6457065,
        mark("Digit1"@) == 0x6447431,
        mark("Digit2"@) == 0x6447432,
        mark("Digit3"@) == 0x6447433,
        mark("Digit4"@) == 0x6447434,
        mark("Digit5"@) == 0x6447435,
        mark("Digit6"@) == 0x6447436,
        mark("Digit7"@) == 0x6447437,
        mark("Digit8"@) == 0x6447438,
        mark("Digit9"@) == 0x6447439,
        mark("Digit0"@) == 0x6447430,
        mark("Minus"@) == 0x54d7573,
        mark("Equal"@) == 0x545616c,
        mark("Backspace"@) == 0x9426365,
        mark("Tab"@) == 0x3546162,
        mark("KeyQ"@) == 0x44b7951,
        mark("KeyW"@) == 0x44b7957,
        mark("KeyE"@) == 0x44b7945,
        mark("KeyR"@) == 0x44b7952,
        mark("KeyT"@) == 0x44b7954,
        mark("KeyY"@) == 0x44b7959,
{
    reveal(mark);
    reveal_strlit("Escape");
    reveal_strlit("Digit1");
    reveal_strlit("Digit2");
    reveal_strlit("Digit3");
    reveal_strlit("Digit4");
    reveal_strlit("Digit5");
    reveal_strlit("Digit6");
    reveal_strlit("Digit7");
    reveal_strlit("Digit8");
    reveal_strlit("Digit9");
    reveal_strlit("Digit0");
    reveal_strlit("Minus");
    reveal_strlit("Equal");
    reveal_strlit("Backspace");
    reveal_strlit("Tab");
    reveal_strlit("KeyQ");
    reveal_strlit("KeyW");
    reveal_strlit("KeyE");
    reveal_strlit("KeyR");
    reveal_strlit("KeyT");
    reveal_strlit("KeyY");
}

proof fn lemma_marks_b()
    ensures
        mark("KeyU"@) == 0x44b7955,
        mark("KeyI"@) == 0x44b7949,
        mark("KeyO"@) == 0x44b794f,
        mark("KeyP"@) == 0x44b7950,
        mark("BracketLeft"@) == 0xb426674,
        mark("BracketRight"@) == 0xc426874,
        mark("Enter"@) == 0x5456572,
        mark("ControlLeft"@) == 0xb436674,
        mark("KeyA"@) == 0x44b7941,
        mark("KeyS"@) == 0x44b7953,
        mark("KeyD"@) == 0x44b7944,
        mark("KeyF"@) == 0x44b7946,
        mark("KeyG"@) == 0x44b7947,
        mark("KeyH"@) == 0x44b7948,
        mark("KeyJ"@) == 0x44b794a,
        mark("KeyK"@) == 0x44b794b,
        mark("KeyL"@) == 0x44b794c,
        mark("Semicolon"@) == 0x9536f6e,
        mark("Quote"@) == 0x5517465,
        mark("Backquote"@) == 0x9427465,
        mark("ShiftLeft"@) == 0x9536674,
{
    reveal(mark);
    reveal_strlit("KeyU");
    reveal_strlit("KeyI");
    reveal_strlit("KeyO");
    reveal_strlit("KeyP");
    reveal_strlit("BracketLeft");
    reveal_strlit("BracketRight");
    reveal_strlit("Enter");
    reveal_strlit("ControlLeft");
    reveal_strlit("KeyA");
    reveal_strlit("KeyS");
    reveal_strlit("KeyD");
    reveal_strlit("KeyF");
    reveal_strlit("KeyG");
    reveal_strlit("KeyH");
    reveal_strlit("KeyJ");
    reveal_strlit("KeyK");
    reveal_strlit("KeyL");
    reveal_strlit("Semicolon");
    reveal_strlit("Quote");
    reveal_strlit("Backquote");
    reveal_strlit("ShiftLeft");
}

proof fn lemma_marks_c()
    ensures
        mark("Backslash"@) == 0x9427368,
        mark("KeyZ"@) == 0x44b795a,
        mark("KeyX"@) == 0x44b7958,
        mark("KeyC"@) == 0x44b7943,
        mark("KeyV"@) == 0x44b7956,
        mark("KeyB"@) == 0x44b7942,
        mark("KeyN"@) == 0x44b794e,
        mark("KeyM"@) == 0x44b794d,
        mark("Comma"@) == 0x5436d61,
        mark("Period"@) == 0x6506f64,
        mark("Slash"@) == 0x5537368,
        mark("ShiftRight"@) == 0xa536874,
        mark("AltLeft"@) == 0x7416674,
        mark("Space"@) == 0x5536365,
        mark("CapsLock"@) == 0x843636b,
        mark("F1"@) == 0x2464631,
        mark("F2"@) == 0x2464632,
        mark("F3"@) == 0x2464633,
        mark("F4"@) == 0x2464634,
        mark("F5"@) == 0x2464635,
        mark("F6"@) == 0x2464636,
{
    reveal(mark);
    reveal_strlit("Backslash");
    reveal_strlit("KeyZ");
    reveal_strlit("KeyX");
    reveal_strlit("KeyC");
    reveal_strlit("KeyV");
    reveal_strlit("KeyB");
    reveal_strlit("KeyN");
    reveal_strlit("KeyM");
    reveal_strlit("Comma");
    reveal_strlit("Period");
    reveal_strlit("Slash");
    reveal_strlit("ShiftRight");
    reveal_strlit("AltLeft");
    reveal_strlit("Space");
    reveal_strlit("CapsLock");
    reveal_strlit("F1");
    reveal_strlit("F2");
    reveal_strlit("F3");
    reveal_strlit("F4");
    reveal_strlit("F5");
    reveal_strlit("F6");
}

proof fn lemma_marks_d()
    ensures
        mark("F7"@) == 0x2464637,
        mark("F8"@) == 0x2464638,
        mark("F9"@) == 0x2464639,
        mark("F10"@) == 0x3463130,
        mark("F11"@) == 0x3463131,
        mark("F12"@) == 0x3463132,
        mark("ControlRight"@) == 0xc436874,
        mark("AltRight"@) == 0x8416874,
        mark("ArrowUp"@) == 0x7415570,
        mark("ArrowLeft"@) == 0x9416674,
        mark("ArrowRight"@) == 0xa416874,
        mark("ArrowDown"@) == 0x941776e,
        mark("Insert"@) == 0x6497274,
        mark("Delete"@) == 0x6447465,
        mark("Home"@) == 0x4486d65,
        mark("End"@) == 0x3456e64,
        mark("PageUp"@) == 0x6505570,
        mark("PageDown"@) == 0x850776e,
        mark("MetaLeft"@) == 0x84d6674,
        mark("MetaRight"@) == 0x94d6874,
{
    reveal(mark);
    reveal_strlit("F7");
    reveal_strlit("F8");
    reveal_strlit("F9");
    reveal_strlit("F10");
    reveal_strlit("F11");
    reveal_strlit("F12");
    reveal_strlit("ControlRight");
    reveal_strlit("AltRight");
    reveal_strlit("ArrowUp");
    reveal_strlit("ArrowLeft");
    reveal_strlit("ArrowRight");
    reveal_strlit("ArrowDown");
    reveal_strlit("Insert");
    reveal_strlit("Delete");
    reveal_strlit("Home");
    reveal_strlit("End");
    reveal_strlit("PageUp");
    reveal_strlit("PageDown");
    reveal_strlit("MetaLeft");
    reveal_strlit("MetaRight");
}

/// From Escape over the digits to Backspace.
pub open spec fn number_row() -> Seq<Seq<char>> {
    seq![
        "Escape"@,
        "Digit1"@,
        "Digit2"@,
        "Digit3"@,
        "Digit4"@,
        "Digit5"@,
        "Digit6"@,
        "Digit7"@,
        "Digit8"@,
        "Digit9"@,
        "Digit0"@,
        "Minus"@,
        "Equal"@,
        "Backspace"@,
    ]
}

/// From Tab over the upper letters to Enter.
pub open spec fn upper_row() -> Seq<Seq<char>> {
    seq![
        "Tab"@,
        "KeyQ"@,
        "KeyW"@,
        "KeyE"@,
        "KeyR"@,
        "KeyT"@,
        "KeyY"@,
        "KeyU"@,
        "KeyI"@,
        "KeyO"@,
        "KeyP"@,
        "BracketLeft"@,
        "BracketRight"@,
        "Enter"@,
    ]
}

/// From the left Control key over the middle letters to the back quote.
pub open spec fn middle_row() -> Seq<Seq<char>> {
    seq![
        "ControlLeft"@,
        "KeyA"@,
        "KeyS"@,
        "KeyD"@,
        "KeyF"@,
        "KeyG"@,
        "KeyH"@,
        "KeyJ"@,
        "KeyK"@,
        "KeyL"@,
        "Semicolon"@,
        "Quote"@,
        "Backquote"@,
    ]
}

/// From the left Shift key over the lower letters to the right Shift key.
pub open spec fn lower_row() -> Seq<Seq<char>> {
    seq![
        "ShiftLeft"@,
        "Backslash"@,
        "KeyZ"@,
        "KeyX"@,
        "KeyC"@,
        "KeyV"@,
        "KeyB"@,
        "KeyN"@,
        "KeyM"@,
        "Comma"@,
        "Period"@,
        "Slash"@,
        "ShiftRight"@,
    ]
}

/// The left Alt key, the space bar, Caps Lock, and the function keys up to F10.
pub open spec fn function_row() -> Seq<Seq<char>> {
    seq![
        "AltLeft"@,
        "Space"@,
        "CapsLock"@,
        "F1"@,
        "F2"@,
        "F3"@,
        "F4"@,
        "F5"@,
        "F6"@,
        "F7"@,
        "F8"@,
        "F9"@,
        "F10"@,
    ]
}

/// The function keys that came later.
pub open spec fn last_function_keys() -> Seq<Seq<char>> {
    seq![
        "F11"@,
        "F12"@,
    ]
}

/// The upper row of the navigation keys.
pub open spec fn upper_navigation() -> Seq<Seq<char>> {
    seq![
        "Home"@,
        "ArrowUp"@,
        "PageUp"@,
    ]
}

/// The lower rows of the navigation keys.
pub open spec fn lower_navigation() -> Seq<Seq<char>> {
    seq![
        "End"@,
        "ArrowDown"@,
        "PageDown"@,
        "Insert"@,
        "Delete"@,
    ]
}

/// The Meta keys.
pub open spec fn meta_keys() -> Seq<Seq<char>> {
    seq![
        "MetaLeft"@,
        "MetaRight"@,
    ]
}

/// Whether the keys of a row have the scan codes from `first` on, in their order.
pub open spec fn row_begins_at(row: Seq<Seq<char>>, first: int, extended: bool) -> bool {
    forall|i: int|
        0 <= i < row.len() ==> scancode::scancode(#[trigger] row[i]) == Some(
            ScanCode { code: (first + i) as u8, extended },
        )
}

proof fn lemma_number_row()
    ensures
        row_begins_at(number_row(), 0x01, false),
{
    let row = number_row();
    assert forall|i: int| 0 <= i < row.len() implies scancode::scancode(#[trigger] row[i]) == Some(
        ScanCode { code: (0x01 + i) as u8, extended: false },
    ) by {
        reveal_strlit("Escape");
        reveal_strlit("Digit1");
        reveal_strlit("Digit2");
        reveal_strlit("Digit3");
        reveal_strlit("Digit4");
        reveal_strlit("Digit5");
        reveal_strlit("Digit6");
        reveal_strlit("Digit7");
        reveal_strlit("Digit8");
        reveal_strlit("Digit9");
        reveal_strlit("Digit0");
        reveal_strlit("Minus");
        reveal_strlit("Equal");
        reveal_strlit("Backspace");
        let found = ScanCode { code: (0x01 + i) as u8, extended: false };
        assert(scancode::key_name(found) == row[i]);
        law_every_named_key_is_found(found);
    }
}

proof fn lemma_upper_row()
    ensures
        row_begins_at(upper_row(), 0x0f, false),
{
    let row = upper_row();
    assert forall|i: int| 0 <= i < row.len() implies scancode::scancode(#[trigger] row[i]) == Some(
        ScanCode { code: (0x0f + i) as u8, extended: false },
    ) by {
        reveal_strlit("Tab");
        reveal_strlit("KeyQ");
        reveal_strlit("KeyW");
        reveal_strlit("KeyE");
        reveal_strlit("KeyR");
        reveal_strlit("KeyT");
        reveal_strlit("KeyY");
        reveal_strlit("KeyU");
        reveal_strlit("KeyI");
        reveal_strlit("KeyO");
        reveal_strlit("KeyP");
        reveal_strlit("BracketLeft");
        reveal_strlit("BracketRight");
        reveal_strlit("Enter");
        let found = ScanCode { code: (0x0f + i) as u8, extended: false };
        assert(scancode::key_name(found) == row[i]);
        law_every_named_key_is_found(found);
    }
}

proof fn lemma_middle_row()
    ensures
        row_begins_at(middle_row(), 0x1d, false),
{
    let row = middle_row();
    assert forall|i: int| 0 <= i < row.len() implies scancode::scancode(#[trigger] row[i]) == Some(
        ScanCode { code: (0x1d + i) as u8, extended: false },
    ) by {
        reveal_strlit("ControlLeft");
        reveal_strlit("KeyA");
        reveal_strlit("KeyS");
        reveal_strlit("KeyD");
        reveal_strlit("KeyF");
        reveal_strlit("KeyG");
        reveal_strlit("KeyH");
        reveal_strlit("KeyJ");
        reveal_strlit("KeyK");
        reveal_strlit("KeyL");
        reveal_strlit("Semicolon");
        reveal_strlit("Quote");
        reveal_strlit("Backquote");
        let found = ScanCode { code: (0x1d + i) as u8, extended: false };
        assert(scancode::key_name(found) == row[i]);
        law_every_named_key_is_found(found);
    }
}

proof fn lemma_lower_row()
    ensures
        row_begins_at(lower_row(), 0x2a, false),
{
    let row = lower_row();
    assert forall|i: int| 0 <= i < row.len() implies scancode::scancode(#[trigger] row[i]) == Some(
        ScanCode { code: (0x2a + i) as u8, extended: false },
    ) by {
        reveal_strlit("ShiftLeft");
        reveal_strlit("Backslash");
        reveal_strlit("KeyZ");
        reveal_strlit("KeyX");
        reveal_strlit("KeyC");
        reveal_strlit("KeyV");
        reveal_strlit("KeyB");
        reveal_strlit("KeyN");
        reveal_strlit("KeyM");
        reveal_strlit("Comma");
        reveal_strlit("Period");
        reveal_strlit("Slash");
        reveal_strlit("ShiftRight");
        let found = ScanCode { code: (0x2a + i) as u8, extended: false };
        assert(scancode::key_name(found) == row[i]);
        law_every_named_key_is_found(found);
    }
}

proof fn lemma_function_row()
    ensures
        row_begins_at(function_row(), 0x38, false),
{
    let row = function_row();
    assert forall|i: int| 0 <= i < row.len() implies scancode::scancode(#[trigger] row[i]) == Some(
        ScanCode { code: (0x38 + i) as u8, extended: false },
    ) by {
        reveal_strlit("AltLeft");
        reveal_strlit("Space");
        reveal_strlit("CapsLock");
        reveal_strlit("F1");
        reveal_strlit("F2");
        reveal_strlit("F3");
        reveal_strlit("F4");
        reveal_strlit("F5");
        reveal_strlit("F6");
        reveal_strlit("F7");
        reveal_strlit("F8");
        reveal_strlit("F9");
        reveal_strlit("F10");
        let found = ScanCode { code: (0x38 + i) as u8, extended: false };
        assert(scancode::key_name(found) == row[i]);
        law_every_named_key_is_found(found);
    }
}

proof fn lemma_last_function_keys()
    ensures
        row_begins_at(last_function_keys(), 0x57, false),
{
    let row = last_function_keys();
    assert forall|i: int| 0 <= i < row.len() implies scancode::scancode(#[trigger] row[i]) == Some(
        ScanCode { code: (0x57 + i) as u8, extended: false },
    ) by {
        reveal_strlit("F11");
        reveal_strlit("F12");
        let found = ScanCode { code: (0x57 + i) as u8, extended: false };
        assert(scancode::key_name(found) == row[i]);
        law_every_named_key_is_found(found);
    }
}

proof fn lemma_upper_navigation()
    ensures
        row_begins_at(upper_navigation(), 0x47, true),
{
    let row = upper_navigation();
    assert forall|i: int| 0 <= i < row.len() implies scancode::scancode(#[trigger] row[i]) == Some(
        ScanCode { code: (0x47 + i) as u8, extended: true },
    ) by {
        reveal_strlit("Home");
        reveal_strlit("ArrowUp");
        reveal_strlit("PageUp");
        let found = ScanCode { code: (0x47 + i) as u8, extended: true };
        assert(scancode::key_name(found) == row[i]);
        law_every_named_key_is_found(found);
    }
}

proof fn lemma_lower_navigation()
    ensures
        row_begins_at(lower_navigation(), 0x4f, true),
{
    let row = lower_navigation();
    assert forall|i: int| 0 <= i < row.len() implies scancode::scancode(#[trigger] row[i]) == Some(
        ScanCode { code: (0x4f + i) as u8, extended: true },
    ) by {
        reveal_strlit("End");
        reveal_strlit("ArrowDown");
        reveal_strlit("PageDown");
        reveal_strlit("Insert");
        reveal_strlit("Delete");
        let found = ScanCode { code: (0x4f + i) as u8, extended: true };
        assert(scancode::key_name(found) == row[i]);
        law_every_named_key_is_found(found);
    }
}

proof fn lemma_meta_keys()
    ensures
        row_begins_at(meta_keys(), 0x5b, true),
{
    let row = meta_keys();
    assert forall|i: int| 0 <= i < row.len() implies scancode::scancode(#[trigger] row[i]) == Some(
        ScanCode { code: (0x5b + i) as u8, extended: true },
    ) by {
        reveal_strlit("MetaLeft");
        reveal_strlit("MetaRight");
        let found = ScanCode { code: (0x5b + i) as u8, extended: true };
        assert(scancode::key_name(found) == row[i]);
        law_every_named_key_is_found(found);
    }
}

/// Along each row of the keyboard the scan codes count up by one.
pub proof fn law_codes_count_up_along_the_rows()
    ensures
        row_begins_at(number_row(), 0x01, false),
        row_begins_at(upper_row(), 0x0f, false),
        row_begins_at(middle_row(), 0x1d, false),
        row_begins_at(lower_row(), 0x2a, false),
        row_begins_at(function_row(), 0x38, false),
        row_begins_at(last_function_keys(), 0x57, false),
        row_begins_at(upper_navigation(), 0x47, true),
        row_begins_at(lower_navigation(), 0x4f, true),
        row_begins_at(meta_keys(), 0x5b, true),
{
    lemma_number_row();
    lemma_upper_row();
    lemma_middle_row();
    lemma_lower_row();
    lemma_function_row();
    lemma_last_function_keys();
    lemma_upper_navigation();
    lemma_lower_navigation();
    lemma_meta_keys();
}

/// The left and right cursor keys lie one key apart, below the upper navigation
/// keys, and all of them are extended.
pub proof fn law_cursor_keys_lie_between()
    ensures
        scancode::scancode("ArrowLeft"@) == Some(ScanCode { code: 0x4b, extended: true }),
        scancode::scancode("ArrowRight"@) == Some(ScanCode { code: 0x4d, extended: true }),
{
    lemma_marks_a();
    lemma_marks_b();
    lemma_marks_c();
    lemma_marks_d();
}

/// A key on the right has the scan code of its fellow on the left, and differs
/// in that it is extended.
pub proof fn law_right_keys_are_extended_left_keys()
    ensures
        scancode::scancode("ControlLeft"@) matches Some(left) && !left.extended
            && scancode::scancode("ControlRight"@) == Some(
            ScanCode { code: left.code, extended: true },
        ),
        scancode::scancode("AltLeft"@) matches Some(left) && !left.extended && scancode::scancode(
            "AltRight"@,
        ) == Some(ScanCode { code: left.code, extended: true }),
{
    lemma_marks_a();
    lemma_marks_b();
    lemma_marks_c();
    lemma_marks_d();
}

/// The table is complete: the key that a scan code names is found, and has that
/// scan code.
pub proof fn law_every_named_key_is_found(found: ScanCode)
    requires
        scancode::key_name(found).len() > 0,
    ensures
        scancode::scancode(scancode::key_name(found)) == Some(found),
{
    lemma_marks_a();
    lemma_marks_b();
    lemma_marks_c();
    lemma_marks_d();
}

}
