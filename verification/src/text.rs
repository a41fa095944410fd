//! Mathematical model of the decimal and hexadecimal texts that the wallet
//! state is shown in and read from.

use vstd::prelude::*;

verus! {

/// The sixteen digits, upper case.
pub open spec fn upper_digits() -> Seq<char> {
    seq!['0', '1', '2', '3', '4', '5', '6', '7', '8', '9', 'A', 'B', 'C', 'D', 'E', 'F']
}

/// The sixteen digits, lower case.
pub open spec fn lower_digits() -> Seq<char> {
    seq!['0', '1', '2', '3', '4', '5', '6', '7', '8', '9', 'a', 'b', 'c', 'd', 'e', 'f']
}

/// `n` in decimal, without leading zeros; zero is `0`.
pub open spec fn decimal_text(n: nat) -> Seq<char>
    decreases n,
{
    if n < 10 {
        seq![upper_digits()[n as int]]
    } else {
        decimal_text(n / 10).push(upper_digits()[(n % 10) as int])
    }
}

/// `n` in upper-case hexadecimal, without a prefix and without leading
/// zeros; zero is `0`.
pub open spec fn upper_hex_text(n: nat) -> Seq<char>
    decreases n,
{
    if n < 16 {
        seq![upper_digits()[n as int]]
    } else {
        upper_hex_text(n / 16).push(upper_digits()[(n % 16) as int])
    }
}

/// Two lower-case hexadecimal digits for each byte, in order.
pub open spec fn lower_hex_bytes(bytes: Seq<u8>) -> Seq<char> {
    Seq::new(
        2 * bytes.len(),
        |i: int|
            if i % 2 == 0 {
                lower_digits()[(bytes[i / 2] / 16) as int]
            } else {
                lower_digits()[(bytes[i / 2] % 16) as int]
            },
    )
}

/// One character as it stands inside a JSON string: the quotation mark and
/// the backslash behind a backslash, the control characters below the space
/// as their short escapes where JSON has one and as `\u00` with two
/// lower-case hexadecimal digits where it has none, every other character
/// as itself.
pub open spec fn json_escaped_char(c: char) -> Seq<char> {
    if c == '"' {
        seq!['\\', '"']
    } else if c == '\\' {
        seq!['\\', '\\']
    } else if c == '\u{8}' {
        seq!['\\', 'b']
    } else if c == '\u{9}' {
        seq!['\\', 't']
    } else if c == '\u{a}' {
        seq!['\\', 'n']
    } else if c == '\u{c}' {
        seq!['\\', 'f']
    } else if c == '\u{d}' {
        seq!['\\', 'r']
    } else if (c as u32) < 0x20 {
        seq![
            '\\',
            'u',
            '0',
            '0',
            lower_digits()[(c as u32 / 16) as int],
            lower_digits()[(c as u32 % 16) as int],
        ]
    } else {
        seq![c]
    }
}

/// A text as it stands inside a JSON string, without the quotation marks
/// around it.
pub open spec fn json_escaped(s: Seq<char>) -> Seq<char>
    decreases s.len(),
{
    if s.len() == 0 {
        Seq::<char>::empty()
    } else {
        json_escaped(s.drop_last()) + json_escaped_char(s.last())
    }
}

/// A text as a JSON string.
pub open spec fn json_string(s: Seq<char>) -> Seq<char> {
    seq!['"'] + json_escaped(s) + seq!['"']
}

/// The compact JSON text of an object with one member, `key`, whose value
/// is the string `value`.
pub open spec fn json_member_text(key: Seq<char>, value: Seq<char>) -> Seq<char> {
    seq!['{'] + json_string(key) + seq![':'] + json_string(value) + seq!['}']
}

/// Whether `c` is one of `'0'` to `'9'`.
pub open spec fn is_decimal_digit(c: char) -> bool {
    48 <= c as u32 <= 57
}

/// Whether every character of `s` is a decimal digit. The empty text is.
pub open spec fn is_decimal(s: Seq<char>) -> bool {
    forall|i: int| 0 <= i < s.len() ==> is_decimal_digit(#[trigger] s[i])
}

/// The number that a text of decimal digits stands for; the empty text
/// stands for zero, and leading zeros do not count.
pub open spec fn decimal_value(s: Seq<char>) -> nat
    decreases s.len(),
{
    if s.len() == 0 {
        0
    } else {
        decimal_value(s.drop_last()) * 10 + (s.last() as u32 - 48) as nat
    }
}

/// Each of the first ten digits is the character for its number.
proof fn decimal_digit_code(d: nat)
    requires
        d < 10,
    ensures
        upper_digits()[d as int] as u32 == 48 + d,
{
    let digits = upper_digits();
    assert(digits[0] == '0' && digits[1] == '1' && digits[2] == '2' && digits[3] == '3'
        && digits[4] == '4');
    assert(digits[5] == '5' && digits[6] == '6' && digits[7] == '7' && digits[8] == '8'
        && digits[9] == '9');
}

/// Writing a number in decimal and reading the text back gives the number:
/// the text consists of decimal digits, and its value is the number written.
pub proof fn decimal_text_reads_back(n: nat)
    ensures
        is_decimal(decimal_text(n)),
        decimal_value(decimal_text(n)) == n,
    decreases n,
{
    let text = decimal_text(n);
    if n < 10 {
        decimal_digit_code(n);
        assert(text.len() == 1);
        assert(text.drop_last() =~= Seq::<char>::empty());
        assert(decimal_value(text.drop_last()) == 0);
    } else {
        let head = decimal_text(n / 10);
        decimal_text_reads_back(n / 10);
        decimal_digit_code(n % 10);
        assert(text.drop_last() =~= head);
        assert(text.last() == upper_digits()[(n % 10) as int]);
        assert forall|i: int| 0 <= i < text.len() implies is_decimal_digit(#[trigger] text[i]) by {
            if i < head.len() {
                assert(text[i] == head[i]);
            }
        }
    }
}

} // verus!
