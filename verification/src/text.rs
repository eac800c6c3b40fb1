//! Small pieces of text that the display names are built from.

use vstd::prelude::*;

verus! {

/// The character of a decimal digit.
pub open spec fn spec_digit(d: int) -> char {
    if d == 0 {
        '0'
    } else if d == 1 {
        '1'
    } else if d == 2 {
        '2'
    } else if d == 3 {
        '3'
    } else if d == 4 {
        '4'
    } else if d == 5 {
        '5'
    } else if d == 6 {
        '6'
    } else if d == 7 {
        '7'
    } else if d == 8 {
        '8'
    } else {
        '9'
    }
}

/// A number in decimal, without sign or leading zeros.
pub open spec fn spec_decimal(n: nat) -> Seq<char>
    decreases n,
{
    if n < 10 {
        seq![spec_digit(n as int)]
    } else {
        spec_decimal(n / 10) + seq![spec_digit((n % 10) as int)]
    }
}

/// The placeholder name of a scancode that has no better one: `SC` and the
/// code in decimal.
pub open spec fn spec_scancode_placeholder(sc: nat) -> Seq<char> {
    "SC"@ + spec_decimal(sc)
}

/// The character of a hexadecimal digit, in upper case.
pub open spec fn spec_hex_digit(d: int) -> char {
    if d < 10 {
        spec_digit(d)
    } else if d == 10 {
        'A'
    } else if d == 11 {
        'B'
    } else if d == 12 {
        'C'
    } else if d == 13 {
        'D'
    } else if d == 14 {
        'E'
    } else {
        'F'
    }
}

/// A number in upper case hexadecimal, filled with zeros on the left up to
/// `width` digits.
pub open spec fn spec_hex(n: nat, width: nat) -> Seq<char>
    decreases n, width,
{
    if n < 16 && width <= 1 {
        seq![spec_hex_digit(n as int)]
    } else {
        spec_hex(n / 16, if width == 0 { 0 } else { (width - 1) as nat })
            + seq![spec_hex_digit((n % 16) as int)]
    }
}

/// A native code as a debug listing shows it: `0x` and at least four
/// hexadecimal digits.
pub open spec fn spec_hex_code(n: nat) -> Seq<char> {
    "0x"@ + spec_hex(n, 4)
}

/// The text that a sequence of UTF-16 code units stands for. A surrogate
/// pair is one character; a surrogate without its partner becomes the
/// replacement character U+FFFD.
pub open spec fn spec_utf16_lossy(units: Seq<u16>) -> Seq<char>
    decreases units.len(),
{
    if units.len() == 0 {
        Seq::empty()
    } else if units[0] < 0xD800 || units[0] > 0xDFFF {
        seq![units[0] as char] + spec_utf16_lossy(units.drop_first())
    } else if units[0] <= 0xDBFF && units.len() >= 2 && 0xDC00 <= units[1] <= 0xDFFF {
        seq![(0x1_0000 + (units[0] - 0xD800) * 0x400 + (units[1] - 0xDC00)) as char]
            + spec_utf16_lossy(units.skip(2))
    } else {
        seq!['\u{FFFD}'] + spec_utf16_lossy(units.drop_first())
    }
}

/// The ASCII upper case form of a character; only `a` to `z` change.
pub open spec fn spec_ascii_upper(c: char) -> char {
    if 'a' as u32 <= c as u32 && c as u32 <= 'z' as u32 {
        ((c as u32 - 32) as u32) as char
    } else {
        c
    }
}

/// A text with each character in ASCII upper case.
pub open spec fn spec_ascii_uppercase(s: Seq<char>) -> Seq<char> {
    Seq::new(s.len(), |i: int| spec_ascii_upper(s[i]))
}

fn digit_str(d: u32) -> (r: &'static str)
    requires
        d < 10,
    ensures
        r@ == seq![spec_digit(d as int)],
{
    let r = if d == 0 {
        proof { reveal_strlit("0"); }
        "0"
    } else if d == 1 {
        proof { reveal_strlit("1"); }
        "1"
    } else if d == 2 {
        proof { reveal_strlit("2"); }
        "2"
    } else if d == 3 {
        proof { reveal_strlit("3"); }
        "3"
    } else if d == 4 {
        proof { reveal_strlit("4"); }
        "4"
    } else if d == 5 {
        proof { reveal_strlit("5"); }
        "5"
    } else if d == 6 {
        proof { reveal_strlit("6"); }
        "6"
    } else if d == 7 {
        proof { reveal_strlit("7"); }
        "7"
    } else if d == 8 {
        proof { reveal_strlit("8"); }
        "8"
    } else {
        proof { reveal_strlit("9"); }
        "9"
    };
    assert(r@ =~= seq![spec_digit(d as int)]);
    r
}

/// Writes a number in decimal.
pub fn decimal_string(n: u32) -> (r: String)
    ensures
        r@ == spec_decimal(n as nat),
    decreases n,
{
    if n < 10 {
        String::from_str(digit_str(n))
    } else {
        let mut s = decimal_string(n / 10);
        s.append(digit_str(n % 10));
        s
    }
}

fn hex_digit_str(d: u32) -> (r: &'static str)
    requires
        d < 16,
    ensures
        r@ == seq![spec_hex_digit(d as int)],
{
    if d < 10 {
        digit_str(d)
    } else {
        let r = if d == 10 {
            proof { reveal_strlit("A"); }
            "A"
        } else if d == 11 {
            proof { reveal_strlit("B"); }
            "B"
        } else if d == 12 {
            proof { reveal_strlit("C"); }
            "C"
        } else if d == 13 {
            proof { reveal_strlit("D"); }
            "D"
        } else if d == 14 {
            proof { reveal_strlit("E"); }
            "E"
        } else {
            proof { reveal_strlit("F"); }
            "F"
        };
        assert(r@ =~= seq![spec_hex_digit(d as int)]);
        r
    }
}

/// Writes a number in upper case hexadecimal with at least `width` digits.
pub fn hex_string(n: u32, width: u32) -> (r: String)
    ensures
        r@ == spec_hex(n as nat, width as nat),
    decreases n, width,
{
    if n < 16 && width <= 1 {
        String::from_str(hex_digit_str(n))
    } else {
        let rest: u32 = if width == 0 { 0 } else { width - 1 };
        let mut s = hex_string(n / 16, rest);
        s.append(hex_digit_str(n % 16));
        s
    }
}

/// Writes a native code as a debug listing shows it.
pub fn hex_code(n: u32) -> (r: String)
    ensures
        r@ == spec_hex_code(n as nat),
{
    let mut s = String::from_str("0x");
    let digits = hex_string(n, 4);
    s.append(digits.as_str());
    s
}

/// The placeholder name of a scancode: `SC` and the code in decimal.
pub fn scancode_placeholder(sc: u32) -> (r: String)
    ensures
        r@ == spec_scancode_placeholder(sc as nat),
{
    let mut s = String::from_str("SC");
    let digits = decimal_string(sc);
    s.append(digits.as_str());
    s
}

/// Whether two texts are the same, character by character.
pub fn same_text(a: &str, b: &str) -> (r: bool)
    ensures
        r == (a@ == b@),
{
    String::from_str(a) == String::from_str(b)
}

/// Calls `str::to_ascii_uppercase`. std documents that the result is a copy
/// in which `a` to `z` are replaced by `A` to `Z` and every other character
/// is kept.
#[verifier::external_body]
pub(crate) fn ascii_uppercase(s: &str) -> (r: String)
    ensures
        r@ == spec_ascii_uppercase(s@),
{
    s.to_ascii_uppercase()
}

/// Calls `String::from_utf16_lossy`. std documents that it decodes UTF-16
/// and puts U+FFFD in the place of invalid data, which is every surrogate
/// that has no partner.
#[verifier::external_body]
pub(crate) fn from_utf16_lossy(units: &Vec<u16>) -> (r: String)
    ensures
        r@ == spec_utf16_lossy(units@),
{
    String::from_utf16_lossy(units)
}

/// Calls `String::from` on a character: the text of that one character.
#[verifier::external_body]
pub(crate) fn char_to_string(c: char) -> (r: String)
    ensures
        r@ == seq![c],
{
    String::from(c)
}

} // verus!
