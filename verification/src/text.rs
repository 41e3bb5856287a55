//! The texts the library hands out: numbers in decimal and hexadecimal, and
//! the comparison of names.

use vstd::prelude::*;
use vstd::string::StringExecFns;

verus! {

/// Whether two string slices hold the same characters.
pub fn same_text(a: &str, b: &str) -> (same: bool)
    ensures
        same == (a@ == b@),
{
    a.to_owned() == b.to_owned()
}

/// The character of a digit, lower case, for the bases up to sixteen.
pub open spec fn digit_char(value: int) -> char {
    if value == 0 {
        '0'
    } else if value == 1 {
        '1'
    } else if value == 2 {
        '2'
    } else if value == 3 {
        '3'
    } else if value == 4 {
        '4'
    } else if value == 5 {
        '5'
    } else if value == 6 {
        '6'
    } else if value == 7 {
        '7'
    } else if value == 8 {
        '8'
    } else if value == 9 {
        '9'
    } else if value == 10 {
        'a'
    } else if value == 11 {
        'b'
    } else if value == 12 {
        'c'
    } else if value == 13 {
        'd'
    } else if value == 14 {
        'e'
    } else {
        'f'
    }
}

/// A byte in hexadecimal, without prefix or padding: `4b`, `5`.
pub open spec fn hex_digits(value: u8) -> Seq<char> {
    if value >= 16 {
        seq![digit_char(value as int / 16), digit_char(value as int % 16)]
    } else {
        seq![digit_char(value as int)]
    }
}

/// A byte in hexadecimal with a leading `0x` and no padding: `0x4b`, `0x5`.
pub open spec fn hex_text(value: u8) -> Seq<char> {
    seq!['0', 'x'] + hex_digits(value)
}

/// A 16-bit number in hexadecimal with a leading `0x`, padded to four digits: `0x04f9`.
pub open spec fn hex_word_text(value: u16) -> Seq<char> {
    seq![
        '0',
        'x',
        digit_char(value as int / 0x1000),
        digit_char((value as int / 0x100) % 16),
        digit_char((value as int / 0x10) % 16),
        digit_char(value as int % 16),
    ]
}

/// A number in decimal, without padding.
pub open spec fn decimal_text(value: nat) -> Seq<char>
    decreases value,
{
    if value < 10 {
        seq![digit_char(value as int)]
    } else {
        decimal_text(value / 10).push(digit_char((value % 10) as int))
    }
}

/// One digit, lower case, for the bases up to sixteen.
fn digit(value: u8) -> (digit: &'static str)
    requires
        value < 16,
    ensures
        digit@ == seq![digit_char(value as int)],
{
    proof {
        reveal_strlit("0");
        reveal_strlit("1");
        reveal_strlit("2");
        reveal_strlit("3");
        reveal_strlit("4");
        reveal_strlit("5");
        reveal_strlit("6");
        reveal_strlit("7");
        reveal_strlit("8");
        reveal_strlit("9");
        reveal_strlit("a");
        reveal_strlit("b");
        reveal_strlit("c");
        reveal_strlit("d");
        reveal_strlit("e");
        reveal_strlit("f");
    }
    let digit = match value {
        0 => "0",
        1 => "1",
        2 => "2",
        3 => "3",
        4 => "4",
        5 => "5",
        6 => "6",
        7 => "7",
        8 => "8",
        9 => "9",
        10 => "a",
        11 => "b",
        12 => "c",
        13 => "d",
        14 => "e",
        _ => "f",
    };
    assert(digit@ =~= seq![digit_char(value as int)]);
    digit
}

/// Appends a byte in hexadecimal, without prefix or padding.
pub fn push_hex(text: &mut String, value: u8)
    ensures
        final(text)@ == old(text)@ + hex_digits(value),
{
    if value >= 16 {
        text.append(digit(value / 16));
    }
    text.append(digit(value % 16));
    assert(text@ =~= old(text)@ + hex_digits(value));
}

/// A byte in hexadecimal with a leading `0x` and no padding, such as `0x4b`.
pub fn hex_byte(value: u8) -> (text: String)
    ensures
        text@ == hex_text(value),
{
    proof {
        reveal_strlit("0x");
    }
    let mut text = "0x".to_string();
    assert(text@ =~= seq!['0', 'x']);
    push_hex(&mut text, value);
    text
}

/// A text followed by a byte in hexadecimal.
pub fn with_hex(prefix: &str, value: u8) -> (text: String)
    ensures
        text@ == prefix@ + hex_text(value),
{
    let mut text = prefix.to_string();
    text.append(hex_byte(value).as_str());
    text
}

/// A 16-bit number in hexadecimal with a leading `0x`, padded to four
/// digits, such as `0x04f9`.
pub fn hex_word(value: u16) -> (text: String)
    ensures
        text@ == hex_word_text(value),
{
    proof {
        reveal_strlit("0x");
    }
    let mut text = "0x".to_string();
    text.append(digit((value / 0x1000) as u8));
    text.append(digit(((value / 0x100) % 16) as u8));
    text.append(digit(((value / 0x10) % 16) as u8));
    text.append(digit((value % 16) as u8));
    assert(text@ =~= hex_word_text(value));
    text
}

/// A number in decimal.
pub fn decimal(value: u64) -> (text: String)
    ensures
        text@ == decimal_text(value as nat),
{
    // The digits from the last to the second.
    let mut digits: Vec<u8> = Vec::new();
    let mut rest = value;
    while rest >= 10
        invariant
            forall|i: int| 0 <= i < digits@.len() ==> digits@[i] < 10,
            decimal_text(value as nat) == decimal_text(rest as nat) + Seq::new(
                digits@.len(),
                |i: int| digit_char(digits@[digits@.len() - 1 - i] as int),
            ),
        decreases rest,
    {
        let ghost before = digits@;
        digits.push((rest % 10) as u8);
        assert(decimal_text(rest as nat) + Seq::new(
            before.len(),
            |i: int| digit_char(before[before.len() - 1 - i] as int),
        ) =~= decimal_text((rest / 10) as nat) + Seq::new(
            digits@.len(),
            |i: int| digit_char(digits@[digits@.len() - 1 - i] as int),
        ));
        rest = rest / 10;
    }
    let mut text = digit(rest as u8).to_string();
    let mut i = digits.len();
    while i > 0
        invariant
            i <= digits@.len(),
            forall|j: int| 0 <= j < digits@.len() ==> digits@[j] < 10,
            text@ == decimal_text(rest as nat) + Seq::new(
                (digits@.len() - i) as nat,
                |j: int| digit_char(digits@[digits@.len() - 1 - j] as int),
            ),
        decreases i,
    {
        i -= 1;
        let ghost before = text@;
        text.append(digit(digits[i]));
        assert(text@ =~= decimal_text(rest as nat) + Seq::new(
            (digits@.len() - i) as nat,
            |j: int| digit_char(digits@[digits@.len() - 1 - j] as int),
        ));
    }
    text
}

} // verus!
