//! Text building blocks for messages and reports.
//!
//! Messages are assembled from string literals, hexadecimal and decimal
//! numerals, and fields padded to a column width. Each building block states
//! the exact characters it appends.

use vstd::prelude::*;
use vstd::string::StrSliceExecFns;
use vstd::string::StringExecFns;

verus! {

/// The numeral for a value below sixteen: `0` to `9`, then `A` to `F`.
pub open spec fn digit_char(value: u8) -> char
    recommends
        value < 16,
{
    if value < 10 {
        ('0' as u8 + value) as char
    } else {
        ('A' as u8 + value - 10) as char
    }
}

/// A byte as two upper-case hexadecimal digits.
pub open spec fn hex2(value: u8) -> Seq<char> {
    seq![digit_char(value / 16), digit_char(value % 16)]
}

/// A 16-bit value as four upper-case hexadecimal digits.
pub open spec fn hex4(value: u16) -> Seq<char> {
    hex2((value / 0x100) as u8) + hex2((value % 0x100) as u8)
}

/// A natural number in decimal, without leading zeros.
pub open spec fn decimal(value: nat) -> Seq<char>
    decreases value,
{
    if value < 10 {
        seq![digit_char(value as u8)]
    } else {
        decimal(value / 10).push(digit_char((value % 10) as u8))
    }
}

/// `count` spaces.
pub open spec fn spaces(count: nat) -> Seq<char> {
    Seq::new(count, |i: int| ' ')
}

/// `field` followed by as many spaces as it takes to fill `width` columns;
/// a field that is already that wide is left as it is.
pub open spec fn padded(field: Seq<char>, width: nat) -> Seq<char> {
    if field.len() >= width {
        field
    } else {
        field + spaces((width - field.len()) as nat)
    }
}

/// A version as text: the major number, a dot, the minor number. The major
/// number is the high byte of `version`, the minor number its low byte.
pub open spec fn version_text(version: u16) -> Seq<char> {
    decimal((version / 0x100) as nat) + "."@ + decimal((version % 0x100) as nat)
}

/// The one-character text of a numeral below sixteen.
pub fn digit_text(value: u8) -> (text: &'static str)
    requires
        value < 16,
    ensures
        text@ == seq![digit_char(value)],
{
    proof {
        reveal_strlit("0");
        reveal_strlit("1");
        reveal_strlit("2");
        reveal_strlit("3");
        reveal_strlit("4");
        reveal_strlit("5");
        reveal_strlit("6");
        reveal_strlit("7");
        reveal_strlit("8");
        reveal_strlit("9");
        reveal_strlit("A");
        reveal_strlit("B");
        reveal_strlit("C");
        reveal_strlit("D");
        reveal_strlit("E");
        reveal_strlit("F");
    }
    let text = match value {
        0 => "0",
        1 => "1",
        2 => "2",
        3 => "3",
        4 => "4",
        5 => "5",
        6 => "6",
        7 => "7",
        8 => "8",
        9 => "9",
        10 => "A",
        11 => "B",
        12 => "C",
        13 => "D",
        14 => "E",
        _ => "F",
    };
    assert(text@ =~= seq![digit_char(value)]);
    text
}

/// Appends a byte as two hexadecimal digits.
pub fn push_hex2(text: &mut String, value: u8)
    ensures
        final(text)@ == old(text)@ + hex2(value),
{
    text.append(digit_text(value / 16));
    text.append(digit_text(value % 16));
    assert(text@ =~= old(text)@ + hex2(value));
}

/// Appends a 16-bit value as four hexadecimal digits.
pub fn push_hex4(text: &mut String, value: u16)
    ensures
        final(text)@ == old(text)@ + hex4(value),
{
    push_hex2(text, (value / 0x100) as u8);
    push_hex2(text, (value % 0x100) as u8);
    assert(text@ =~= old(text)@ + hex4(value));
}

/// Appends a number in decimal.
pub fn push_decimal(text: &mut String, value: u32)
    ensures
        final(text)@ == old(text)@ + decimal(value as nat),
    decreases value,
{
    if value >= 10 {
        push_decimal(text, value / 10);
    }
    text.append(digit_text((value % 10) as u8));
    assert(text@ =~= old(text)@ + decimal(value as nat));
}

/// A version as text.
pub fn version_string(version: u16) -> (text: String)
    ensures
        text@ == version_text(version),
{
    let mut text = String::new();
    push_decimal(&mut text, (version / 0x100) as u32);
    text.append(".");
    push_decimal(&mut text, (version % 0x100) as u32);
    assert(text@ =~= version_text(version));
    text
}

/// Appends `field`, then spaces up to `width` columns.
pub fn push_padded(text: &mut String, field: &str, width: usize)
    ensures
        final(text)@ == old(text)@ + padded(field@, width as nat),
{
    text.append(field);
    let length: usize = field.unicode_len();
    let mut column: usize = length;
    while column < width
        invariant
            length == field@.len(),
            length <= column,
            column <= width || column == length,
            text@ == old(text)@ + field@ + spaces((column - length) as nat),
        decreases width - column,
    {
        proof {
            reveal_strlit(" ");
            assert(spaces((column - length) as nat) + " "@ =~= spaces(
                (column + 1 - length) as nat,
            ));
        }
        text.append(" ");
        column += 1;
    }
    assert(text@ =~= old(text)@ + padded(field@, width as nat));
}

} // verus!
