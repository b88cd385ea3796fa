//! Facts about characters and their UTF-8 encoding.

use vstd::prelude::*;

verus! {

/// Bytes that the UTF-8 encoding of `c` takes.
pub open spec fn char_width(c: char) -> nat {
    if (c as u32) < 0x80 {
        1
    } else if (c as u32) < 0x800 {
        2
    } else if (c as u32) < 0x10000 {
        3
    } else {
        4
    }
}

/// Bytes that the UTF-8 encoding of `s` takes.
pub open spec fn utf8_len(s: Seq<char>) -> nat
    decreases s.len(),
{
    if s.len() == 0 {
        0
    } else {
        utf8_len(s.drop_last()) + char_width(s.last())
    }
}

/// Unicode's `White_Space` property.
pub open spec fn is_white_space(c: char) -> bool {
    let v = c as u32;
    ||| 0x09 <= v <= 0x0D
    ||| v == 0x20
    ||| v == 0x85
    ||| v == 0xA0
    ||| v == 0x1680
    ||| 0x2000 <= v <= 0x200A
    ||| v == 0x2028
    ||| v == 0x2029
    ||| v == 0x202F
    ||| v == 0x205F
    ||| v == 0x3000
}

/// A character that ends a paragraph.
pub open spec fn is_line_break(c: char) -> bool {
    c == '\n' || c == '\r'
}


/// The character of decimal digit `d`.
pub open spec fn digit_char(d: nat) -> char {
    ((48 + d) as u32) as char
}

/// The character of lowercase hexadecimal digit `d`.
pub open spec fn hex_char(d: nat) -> char {
    if d < 10 {
        ((48 + d) as u32) as char
    } else {
        ((87 + d) as u32) as char
    }
}

/// The decimal writing of `n`, without leading zeros.
pub open spec fn decimal(n: nat) -> Seq<char>
    decreases n,
{
    if n < 10 {
        seq![digit_char(n)]
    } else {
        decimal(n / 10).push(digit_char(n % 10))
    }
}

/// The two lowercase hexadecimal digits of `b`.
pub open spec fn hex2(b: u8) -> Seq<char> {
    seq![hex_char((b / 16) as nat), hex_char((b % 16) as nat)]
}

/// `String::push`: appends `c`.
#[verifier::external_body]
pub(crate) fn push_char(s: &mut String, c: char)
    ensures
        final(s)@ == old(s)@.push(c),
{
    s.push(c)
}

/// The character of decimal digit `d`.
pub fn digit(d: u8) -> (c: char)
    requires
        d < 10,
    ensures
        c == digit_char(d as nat),
{
    (d + 48) as char
}

/// The character of lowercase hexadecimal digit `d`.
pub fn hex_digit(d: u8) -> (c: char)
    requires
        d < 16,
    ensures
        c == hex_char(d as nat),
{
    if d < 10 {
        (d + 48) as char
    } else {
        (d + 87) as char
    }
}

/// Appends the decimal writing of `n`.
pub fn push_decimal(s: &mut String, n: u8)
    ensures
        final(s)@ == old(s)@ + decimal(n as nat),
{
    proof {
        reveal_with_fuel(decimal, 3);
    }
    if n >= 100 {
        push_char(s, digit(n / 100));
        assert((n / 10) as nat / 10 == n / 100);
    }
    if n >= 10 {
        push_char(s, digit((n / 10) % 10));
    }
    push_char(s, digit(n % 10));
    proof {
        if n >= 100 {
            assert(decimal(n as nat) =~= seq![
                digit_char((n / 100) as nat),
                digit_char(((n / 10) % 10) as nat),
                digit_char((n % 10) as nat),
            ]);
        } else if n >= 10 {
            assert(decimal(n as nat) =~= seq![
                digit_char((n / 10) as nat),
                digit_char((n % 10) as nat),
            ]);
        }
        assert(s@ =~= old(s)@ + decimal(n as nat));
    }
}

/// Appends the two lowercase hexadecimal digits of `b`.
pub fn push_hex2(s: &mut String, b: u8)
    ensures
        final(s)@ == old(s)@ + hex2(b),
{
    push_char(s, hex_digit(b / 16));
    push_char(s, hex_digit(b % 16));
    assert(s@ =~= old(s)@ + hex2(b));
}

/// Appends the decimal writing of `n`.
pub fn push_decimal_u64(s: &mut String, n: u64)
    ensures
        final(s)@ == old(s)@ + decimal(n as nat),
    decreases n,
{
    if n >= 10 {
        push_decimal_u64(s, n / 10);
    }
    push_char(s, digit((n % 10) as u8));
    assert(s@ =~= old(s)@ + decimal(n as nat));
}

} // verus!
