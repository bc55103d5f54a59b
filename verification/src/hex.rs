//! Fixed-width hexadecimal text for addresses and registers.

use vstd::prelude::*;
use vstd::arithmetic::div_mod::lemma_mod_breakdown;
use vstd::string::StringExecFns;

verus! {

/// The character of the hexadecimal digit `n`, lower case.
pub open spec fn hex_digit(n: int) -> char {
    if n == 0 {
        '0'
    } else if n == 1 {
        '1'
    } else if n == 2 {
        '2'
    } else if n == 3 {
        '3'
    } else if n == 4 {
        '4'
    } else if n == 5 {
        '5'
    } else if n == 6 {
        '6'
    } else if n == 7 {
        '7'
    } else if n == 8 {
        '8'
    } else if n == 9 {
        '9'
    } else if n == 10 {
        'a'
    } else if n == 11 {
        'b'
    } else if n == 12 {
        'c'
    } else if n == 13 {
        'd'
    } else if n == 14 {
        'e'
    } else {
        'f'
    }
}

/// The last `width` hexadecimal digits of `value`, most significant first.
pub open spec fn hex_digits(value: int, width: nat) -> Seq<char>
    decreases width,
{
    if width == 0 {
        Seq::empty()
    } else {
        hex_digits(value / 16, (width - 1) as nat).push(hex_digit(value % 16))
    }
}

/// `value` as text: `0x` and `width` hexadecimal digits.
pub open spec fn spec_hex(value: int, width: nat) -> Seq<char> {
    "0x"@ + hex_digits(value, width)
}

/// The text of one hexadecimal digit.
fn digit_str(n: u64) -> (text: &'static str)
    requires
        n < 16,
    ensures
        text@ == seq![hex_digit(n as int)],
{
    proof {
        reveal_strlit("0");
        reveal_strlit("1");
        reveal_strlit("2");
        reveal_strlit("3");
        reveal_strlit("4");
        reveal_strlit("5");
        reveal_strlit("6");
        reveal_strlit("7");
        reveal_strlit("8");
        reveal_strlit("9");
        reveal_strlit("a");
        reveal_strlit("b");
        reveal_strlit("c");
        reveal_strlit("d");
        reveal_strlit("e");
        reveal_strlit("f");
    }
    let text = if n == 0 {
        "0"
    } else if n == 1 {
        "1"
    } else if n == 2 {
        "2"
    } else if n == 3 {
        "3"
    } else if n == 4 {
        "4"
    } else if n == 5 {
        "5"
    } else if n == 6 {
        "6"
    } else if n == 7 {
        "7"
    } else if n == 8 {
        "8"
    } else if n == 9 {
        "9"
    } else if n == 10 {
        "a"
    } else if n == 11 {
        "b"
    } else if n == 12 {
        "c"
    } else if n == 13 {
        "d"
    } else if n == 14 {
        "e"
    } else {
        "f"
    };
    assert(text@ =~= seq![hex_digit(n as int)]);
    text
}

/// Appends the last `width` hexadecimal digits of `value` to `text`.
pub fn push_hex_digits(text: &mut String, value: u64, width: u8)
    ensures
        final(text)@ == old(text)@ + hex_digits(value as int, width as nat),
    decreases width,
{
    if width == 0 {
        assert(text@ =~= text@ + hex_digits(value as int, 0));
    } else {
        let ghost before = text@;
        push_hex_digits(text, value / 16, width - 1);
        text.append(digit_str(value % 16));
        assert(text@ =~= before + hex_digits(value as int, width as nat));
    }
}

/// Appends `0x` and the last `width` hexadecimal digits of `value` to `text`.
pub fn push_hex(text: &mut String, value: u64, width: u8)
    ensures
        final(text)@ == old(text)@ + spec_hex(value as int, width as nat),
{
    let ghost before = text@;
    text.append("0x");
    push_hex_digits(text, value, width);
    assert(text@ =~= before + spec_hex(value as int, width as nat));
}

/// `value` as `0x` and sixteen hexadecimal digits.
pub fn hex64(value: u64) -> (text: String)
    ensures
        text@ == spec_hex(value as int, 16),
{
    let mut text = String::new();
    push_hex(&mut text, value, 16);
    assert(text@ =~= spec_hex(value as int, 16));
    text
}

/// The value of a hexadecimal digit, 0 for any other character.
pub open spec fn digit_value(c: char) -> int {
    if c == '1' {
        1
    } else if c == '2' {
        2
    } else if c == '3' {
        3
    } else if c == '4' {
        4
    } else if c == '5' {
        5
    } else if c == '6' {
        6
    } else if c == '7' {
        7
    } else if c == '8' {
        8
    } else if c == '9' {
        9
    } else if c == 'a' {
        10
    } else if c == 'b' {
        11
    } else if c == 'c' {
        12
    } else if c == 'd' {
        13
    } else if c == 'e' {
        14
    } else if c == 'f' {
        15
    } else {
        0
    }
}

/// The number that hexadecimal digits spell, most significant digit first.
pub open spec fn hex_value(digits: Seq<char>) -> int
    decreases digits.len(),
{
    if digits.len() == 0 {
        0
    } else {
        hex_value(digits.drop_last()) * 16 + digit_value(digits.last())
    }
}

/// Sixteen to the power of `n`.
pub open spec fn pow16(n: nat) -> int
    decreases n,
{
    if n == 0 {
        1
    } else {
        16 * pow16((n - 1) as nat)
    }
}

/// Fixed-width text has the width asked for and spells the value, cut down
/// to that many digits: for a value below `16^width` it spells the value.
pub proof fn lemma_hex_round_trip(value: int, width: nat)
    requires
        0 <= value,
    ensures
        hex_digits(value, width).len() == width,
        pow16(width) > 0,
        hex_value(hex_digits(value, width)) == value % pow16(width),
        value < pow16(width) ==> hex_value(hex_digits(value, width)) == value,
    decreases width,
{
    if width > 0 {
        let rest = hex_digits(value / 16, (width - 1) as nat);
        lemma_hex_round_trip(value / 16, (width - 1) as nat);
        assert(hex_digits(value, width).drop_last() =~= rest);
        assert(digit_value(hex_digit(value % 16)) == value % 16);
        lemma_mod_breakdown(value, 16, pow16((width - 1) as nat));
    }
}

} // verus!
