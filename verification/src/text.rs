//! Text as the configuration and the key table need it: equality, white space,
//! ASCII lower case, and decimal numbers.
use vstd::prelude::*;

verus! {

/// `String::push` appends the character to the end of the string.
pub assume_specification[ String::push ](string: &mut String, ch: char)
    ensures
        final(string)@ == old(string)@.push(ch),
;

/// The text that the `{:?}` format gives of a string: quoted, with what cannot
/// be printed escaped.
pub uninterp spec fn debug_text(text: Seq<char>) -> Seq<char>;

/// Calls `format!("{:?}", ..)` on a string. The result is named, not described:
/// it is a function of the string's characters.
#[verifier::external_body]
pub(crate) fn format_debug(text: &str) -> (quoted: String)
    ensures
        quoted@ == debug_text(text@),
{
    format!("{text:?}")
}

/// The characters of an optional text.
pub open spec fn optional(text: Option<String>) -> Option<Seq<char>> {
    match text {
        Some(text) => Some(text@),
        None => None,
    }
}

/// Whether two texts are the same.
pub fn same_text(a: &str, b: &str) -> (same: bool)
    ensures
        same == (a@ == b@),
{
    let x = a.as_bytes();
    let y = b.as_bytes();
    proof {
        vstd::utf8::encode_utf8_decode_utf8(a@);
        vstd::utf8::encode_utf8_decode_utf8(b@);
    }
    if x.len() != y.len() {
        return false;
    }
    let mut i: usize = 0;
    while i < x.len()
        invariant
            x.len() == y.len(),
            i <= x.len(),
            x@ == vstd::utf8::encode_utf8(a@),
            y@ == vstd::utf8::encode_utf8(b@),
            forall|j: int| 0 <= j < i ==> x@[j] == y@[j],
        decreases x.len() - i,
    {
        if x[i] != y[i] {
            return false;
        }
        i += 1;
    }
    assert(x@ =~= y@);
    true
}

/// The characters with Unicode's White_Space property.
pub open spec fn white_space(ch: char) -> bool {
    let n = ch as u32;
    ||| 0x09 <= n <= 0x0d
    ||| n == 0x20
    ||| n == 0x85
    ||| n == 0xa0
    ||| n == 0x1680
    ||| 0x2000 <= n <= 0x200a
    ||| n == 0x2028
    ||| n == 0x2029
    ||| n == 0x202f
    ||| n == 0x205f
    ||| n == 0x3000
}

/// Whether the character is white space.
pub fn is_white_space(ch: char) -> (white: bool)
    ensures
        white == white_space(ch),
{
    let n: u32 = ch as u32;
    (0x09 <= n && n <= 0x0d) || n == 0x20 || n == 0x85 || n == 0xa0 || n == 0x1680 || (0x2000 <= n
        && n <= 0x200a) || n == 0x2028 || n == 0x2029 || n == 0x202f || n == 0x205f || n == 0x3000
}

/// Nothing but white space.
pub open spec fn blank(text: Seq<char>) -> bool {
    forall|i: int| 0 <= i < text.len() ==> white_space(#[trigger] text[i])
}

/// The text without the white space at its beginning.
pub open spec fn trim_start(text: Seq<char>) -> Seq<char>
    decreases text.len(),
{
    if text.len() > 0 && white_space(text[0]) {
        trim_start(text.drop_first())
    } else {
        text
    }
}

/// The text without the white space at its end.
pub open spec fn trim_end(text: Seq<char>) -> Seq<char>
    decreases text.len(),
{
    if text.len() > 0 && white_space(text.last()) {
        trim_end(text.drop_last())
    } else {
        text
    }
}

/// The text without the white space around it.
pub open spec fn trim(text: Seq<char>) -> Seq<char> {
    trim_end(trim_start(text))
}

/// The lower case of an ASCII capital; any other character as it is.
pub open spec fn ascii_lower(ch: char) -> char {
    if 'A' <= ch <= 'Z' {
        (ch as u32 + 32) as char
    } else {
        ch
    }
}

/// The text with its ASCII capitals in lower case.
pub open spec fn lower(text: Seq<char>) -> Seq<char> {
    text.map_values(|ch: char| ascii_lower(ch))
}

/// The characters of a text.
pub fn chars_of(text: &str) -> (chars: Vec<char>)
    ensures
        chars@ == text@,
{
    let mut chars: Vec<char> = Vec::new();
    for ch in it: text.chars()
        invariant
            it.seq() == text@,
            chars@ == text@.take(it.index() as int),
    {
        chars.push(ch);
        assert(text@.take(it.index() + 1) =~= text@.take(it.index() as int).push(ch));
    }
    assert(text@.take(text@.len() as int) =~= text@);
    chars
}

/// Whether the text is empty or nothing but white space.
pub fn is_blank(text: &str) -> (is: bool)
    ensures
        is == blank(text@),
{
    let chars = chars_of(text);
    let mut i: usize = 0;
    while i < chars.len()
        invariant
            i <= chars.len(),
            chars@ == text@,
            forall|j: int| 0 <= j < i ==> white_space(#[trigger] text@[j]),
        decreases chars.len() - i,
    {
        if !is_white_space(chars[i]) {
            return false;
        }
        i += 1;
    }
    true
}

/// The lower case of an ASCII capital; any other character as it is.
fn to_ascii_lower(ch: char) -> (low: char)
    ensures
        low == ascii_lower(ch),
{
    if 'A' <= ch && ch <= 'Z' {
        ((ch as u8) + 32) as char
    } else {
        ch
    }
}

/// The text without the white space around it, in ASCII lower case.
pub fn trimmed_lowercase(text: &str) -> (low: String)
    ensures
        low@ == lower(trim(text@)),
{
    let chars = chars_of(text);
    let mut begin: usize = 0;
    assert(text@.subrange(0, text@.len() as int) =~= text@);
    while begin < chars.len() && is_white_space(chars[begin])
        invariant
            begin <= chars.len(),
            chars@ == text@,
            trim_start(text@) == trim_start(text@.subrange(begin as int, text@.len() as int)),
        decreases chars.len() - begin,
    {
        assert(text@.subrange(begin as int, text@.len() as int).drop_first() =~= text@.subrange(
            begin + 1,
            text@.len() as int,
        ));
        begin += 1;
    }
    let mut end: usize = chars.len();
    while end > begin && is_white_space(chars[end - 1])
        invariant
            begin <= end <= chars.len(),
            chars@ == text@,
            trim(text@) == trim_end(text@.subrange(begin as int, end as int)),
        decreases end,
    {
        assert(text@.subrange(begin as int, end as int).drop_last() =~= text@.subrange(
            begin as int,
            end - 1,
        ));
        end -= 1;
    }
    let ghost kept = text@.subrange(begin as int, end as int);
    assert(trim(text@) == kept);
    let mut low = String::new();
    let mut i: usize = begin;
    while i < end
        invariant
            begin <= i <= end <= chars.len(),
            chars@ == text@,
            kept == text@.subrange(begin as int, end as int),
            low@ == lower(kept).take(i - begin),
        decreases end - i,
    {
        low.push(to_ascii_lower(chars[i]));
        assert(lower(kept).take(i + 1 - begin) =~= lower(kept).take(i - begin).push(
            lower(kept)[i - begin],
        ));
        i += 1;
    }
    assert(lower(kept).take(end - begin) =~= lower(kept));
    low
}

/// The character is a decimal digit.
pub open spec fn is_digit(ch: char) -> bool {
    '0' <= ch <= '9'
}

/// The number that decimal digits spell.
pub open spec fn decimal(digits: Seq<char>) -> int
    decreases digits.len(),
{
    if digits.len() == 0 {
        0
    } else {
        decimal(digits.drop_last()) * 10 + (digits.last() as u32 - '0' as u32)
    }
}

/// The text without a plus sign at its beginning.
pub open spec fn unsigned_part(text: Seq<char>) -> Seq<char> {
    if text.len() > 0 && text[0] == '+' {
        text.drop_first()
    } else {
        text
    }
}

/// The number below 65536 that the text spells: an optional plus sign, then one
/// or more decimal digits, and nothing else.
pub open spec fn u16_of(text: Seq<char>) -> Option<u16> {
    let digits = unsigned_part(text);
    if digits.len() > 0 && (forall|i: int| 0 <= i < digits.len() ==> is_digit(#[trigger] digits[i]))
        && decimal(digits) <= 0xffff {
        Some(decimal(digits) as u16)
    } else {
        None
    }
}

/// Why a text is no number below 65536.
#[derive(Debug, Clone, Copy, PartialEq, Eq, Structural)]
pub enum NumberError {
    /// The text is empty.
    Empty,
    /// A character is no digit, or there is only a sign.
    InvalidDigit,
    /// The number is too large.
    TooLarge,
}

impl NumberError {
    /// The text that describes the error.
    pub open spec fn text(self) -> Seq<char> {
        match self {
            NumberError::Empty => "cannot parse integer from empty string"@,
            NumberError::InvalidDigit => "invalid digit found in string"@,
            NumberError::TooLarge => "number too large to fit in target type"@,
        }
    }

    /// The message shown for the error.
    pub fn message(&self) -> (message: &'static str)
        ensures
            message@ == self.text(),
    {
        match self {
            NumberError::Empty => "cannot parse integer from empty string",
            NumberError::InvalidDigit => "invalid digit found in string",
            NumberError::TooLarge => "number too large to fit in target type",
        }
    }
}

/// The number that digits spell, or the error of the first character that is no
/// digit or makes the number too large.
pub open spec fn read_digits(digits: Seq<char>) -> Result<int, NumberError>
    decreases digits.len(),
{
    if digits.len() == 0 {
        Ok(0)
    } else {
        match read_digits(digits.drop_last()) {
            Ok(high) => {
                let number = high * 10 + (digits.last() as u32 - '0' as u32);
                if !is_digit(digits.last()) {
                    Err(NumberError::InvalidDigit)
                } else if number > 0xffff {
                    Err(NumberError::TooLarge)
                } else {
                    Ok(number)
                }
            },
            Err(error) => Err(error),
        }
    }
}

/// The number below 65536 that the text spells, or why it spells none.
pub open spec fn u16_result(text: Seq<char>) -> Result<u16, NumberError> {
    if text.len() == 0 {
        Err(NumberError::Empty)
    } else if unsigned_part(text).len() == 0 {
        Err(NumberError::InvalidDigit)
    } else {
        match read_digits(unsigned_part(text)) {
            Ok(number) => Ok(number as u16),
            Err(error) => Err(error),
        }
    }
}

proof fn lemma_first_error_stays(digits: Seq<char>, n: int)
    requires
        0 <= n <= digits.len(),
        read_digits(digits.take(n)) is Err,
    ensures
        read_digits(digits) == read_digits(digits.take(n)),
    decreases digits.len(),
{
    if n == digits.len() {
        assert(digits.take(n) =~= digits);
    } else {
        assert(digits.drop_last().take(n) =~= digits.take(n));
        lemma_first_error_stays(digits.drop_last(), n);
    }
}

proof fn lemma_read_digits(digits: Seq<char>)
    ensures
        match read_digits(digits) {
            Ok(number) => {
                &&& 0 <= number <= 0xffff
                &&& number == decimal(digits)
                &&& forall|i: int| 0 <= i < digits.len() ==> is_digit(#[trigger] digits[i])
            },
            Err(_) => (forall|i: int| 0 <= i < digits.len() ==> is_digit(#[trigger] digits[i]))
                ==> decimal(digits) > 0xffff,
        },
    decreases digits.len(),
{
    if digits.len() > 0 {
        let high = digits.drop_last();
        lemma_read_digits(high);
        if forall|i: int| 0 <= i < digits.len() ==> is_digit(#[trigger] digits[i]) {
            assert forall|i: int| 0 <= i < high.len() implies is_digit(#[trigger] high[i]) by {
                assert(high[i] == digits[i]);
            }
            assert(is_digit(digits[digits.len() - 1]));
        }
        if read_digits(digits) is Ok {
            assert forall|i: int| 0 <= i < digits.len() implies is_digit(#[trigger] digits[i]) by {
                if i < high.len() {
                    assert(high[i] == digits[i]);
                }
            }
        }
    }
}

/// A text is read as the number that its digits spell, and refused exactly if
/// it spells no number below 65536.
pub proof fn law_numbers_are_decimal(text: Seq<char>)
    ensures
        match u16_result(text) {
            Ok(number) => u16_of(text) == Some(number),
            Err(_) => u16_of(text) is None,
        },
{
    lemma_read_digits(unsigned_part(text));
}

/// Reads a number below 65536.
pub fn parse_u16(text: &str) -> (result: Result<u16, NumberError>)
    ensures
        result == u16_result(text@),
{
    let chars = chars_of(text);
    if chars.len() == 0 {
        return Err(NumberError::Empty);
    }
    let begin: usize = if chars[0] == '+' {
        1
    } else {
        0
    };
    let ghost digits = unsigned_part(text@);
    assert(digits =~= text@.subrange(begin as int, text@.len() as int));
    if begin == chars.len() {
        return Err(NumberError::InvalidDigit);
    }
    let mut value: u32 = 0;
    let mut i: usize = begin;
    while i < chars.len()
        invariant
            begin <= i <= chars.len(),
            chars@ == text@,
            text@.len() > 0,
            digits.len() > 0,
            digits == unsigned_part(text@),
            digits == text@.subrange(begin as int, text@.len() as int),
            value <= 0xffff,
            read_digits(digits.take(i - begin)) == Ok::<int, NumberError>(value as int),
        decreases chars.len() - i,
    {
        let ch = chars[i];
        let ghost next = digits.take(i + 1 - begin);
        assert(ch == next.last());
        assert(next.drop_last() =~= digits.take(i - begin));
        if ch < '0' || '9' < ch {
            proof {
                assert(read_digits(next) == Err::<int, NumberError>(NumberError::InvalidDigit));
                lemma_first_error_stays(digits, i + 1 - begin);
            }
            return Err(NumberError::InvalidDigit);
        }
        let digit: u32 = ch as u32 - '0' as u32;
        value = value * 10 + digit;
        if value > 0xffff {
            proof {
                assert(read_digits(next) == Err::<int, NumberError>(NumberError::TooLarge));
                lemma_first_error_stays(digits, i + 1 - begin);
            }
            return Err(NumberError::TooLarge);
        }
        i += 1;
    }
    assert(digits.take(i - begin) =~= digits);
    Ok(value as u16)
}

/// Decimal digits count by their places: those in front of `n` others count for
/// ten to the power `n` as much.
pub proof fn law_digits_count_by_place(front: Seq<char>, behind: Seq<char>)
    ensures
        decimal(front + behind) == decimal(front) * vstd::arithmetic::power::pow(10, behind.len()) + decimal(behind),
    decreases behind.len(),
{
    if behind.len() == 0 {
        assert(front + behind =~= front);
        vstd::arithmetic::power::lemma_pow0(10);
    } else {
        let all = front + behind;
        assert(all.drop_last() =~= front + behind.drop_last());
        assert(all.last() == behind.last());
        law_digits_count_by_place(front, behind.drop_last());
        let n = (behind.len() - 1) as nat;
        vstd::arithmetic::power::lemma_pow1(10);
        vstd::arithmetic::power::lemma_pow_adds(10, n, 1);
        assert((decimal(front) * vstd::arithmetic::power::pow(10, n) + decimal(behind.drop_last())) * 10 == decimal(front)
            * (vstd::arithmetic::power::pow(10, n) * 10) + decimal(behind.drop_last()) * 10) by (nonlinear_arith);
    }
}

/// One digit is worth its distance from the digit zero.
pub proof fn law_one_digit(digit: char)
    ensures
        decimal(seq![digit]) == digit as u32 - '0' as u32,
{
    assert(seq![digit].drop_last() =~= Seq::empty());
    assert(decimal(seq![digit].drop_last()) == 0);
}

/// Which texts are numbers below 65536: one digit or more, behind a plus sign or
/// not, whose value is that small. Each number is given by its digits.
pub proof fn law_which_texts_are_numbers(digits: Seq<char>)
    requires
        digits.len() > 0,
        forall|i: int| 0 <= i < digits.len() ==> '0' <= #[trigger] digits[i] <= '9',
    ensures
        decimal(digits) <= 65535 ==> {
            &&& u16_result(digits) == Ok::<u16, NumberError>(decimal(digits) as u16)
            &&& u16_result(seq!['+'] + digits) == Ok::<u16, NumberError>(decimal(digits) as u16)
        },
        decimal(digits) > 65535 ==> {
            &&& u16_result(digits) == Err::<u16, NumberError>(NumberError::TooLarge)
            &&& u16_result(seq!['+'] + digits) == Err::<u16, NumberError>(NumberError::TooLarge)
        },
{
    assert('0' <= digits[0] <= '9');
    assert(unsigned_part(digits) == digits);
    let signed = seq!['+'] + digits;
    assert(signed[0] == '+');
    assert(signed.drop_first() =~= digits);
    assert(unsigned_part(signed) == digits);
    lemma_read_digits(digits);
    assert forall|i: int| 0 <= i < digits.len() implies is_digit(#[trigger] digits[i]) by {}
    lemma_only_digits(digits);
}

proof fn lemma_only_digits(digits: Seq<char>)
    requires
        forall|i: int| 0 <= i < digits.len() ==> '0' <= #[trigger] digits[i] <= '9',
    ensures
        read_digits(digits) matches Err(error) ==> error == NumberError::TooLarge,
    decreases digits.len(),
{
    if digits.len() > 0 {
        assert forall|i: int| 0 <= i < digits.drop_last().len() implies '0'
            <= #[trigger] digits.drop_last()[i] <= '9' by {
            assert(digits.drop_last()[i] == digits[i]);
        }
        lemma_only_digits(digits.drop_last());
        assert('0' <= digits[digits.len() - 1] <= '9');
    }
}

/// What is said of other texts: of the empty one that it is empty; of a lone plus
/// sign, and of a text with a character that is no digit behind digits that are
/// still small enough, that the digit is invalid.
pub proof fn law_which_texts_are_no_numbers(digits: Seq<char>, other: char, rest: Seq<char>)
    requires
        forall|i: int| 0 <= i < digits.len() ==> '0' <= #[trigger] digits[i] <= '9',
        decimal(digits) <= 65535,
        other < '0' || '9' < other,
        digits.len() == 0 ==> other != '+',
    ensures
        u16_result(Seq::empty()) == Err::<u16, NumberError>(NumberError::Empty),
        u16_result(seq!['+']) == Err::<u16, NumberError>(NumberError::InvalidDigit),
        u16_result(digits + seq![other] + rest) == Err::<u16, NumberError>(
            NumberError::InvalidDigit,
        ),
        u16_result(seq!['+'] + (digits + seq![other] + rest)) == Err::<u16, NumberError>(
            NumberError::InvalidDigit,
        ),
{
    let plain = digits + seq![other] + rest;
    let bad = digits + seq![other];
    let signed = seq!['+'] + plain;
    assert(seq!['+'].drop_first() =~= Seq::empty());
    assert(signed.drop_first() =~= plain);
    if digits.len() > 0 {
        assert('0' <= digits[0] <= '9');
        assert(plain[0] == digits[0]);
    } else {
        assert(plain[0] == other);
    }
    assert(unsigned_part(plain) == plain);
    lemma_read_digits(digits);
    assert forall|i: int| 0 <= i < digits.len() implies is_digit(#[trigger] digits[i]) by {}
    assert(bad.drop_last() =~= digits);
    assert(bad.last() == other);
    assert(read_digits(bad) == Err::<int, NumberError>(NumberError::InvalidDigit));
    assert(plain.take(bad.len() as int) =~= bad);
    lemma_first_error_stays(plain, bad.len() as int);
}

/// Lower case, one character at a time: the capital letters of ASCII become the
/// small ones at the same place of the alphabet, and nothing else changes.
pub proof fn law_lower_case(text: Seq<char>, i: int)
    requires
        0 <= i < text.len(),
    ensures
        lower(text).len() == text.len(),
        65 <= text[i] as u32 <= 90 ==> lower(text)[i] as u32 == text[i] as u32 + 32,
        !(65 <= text[i] as u32 <= 90) ==> lower(text)[i] == text[i],
{
}

}
