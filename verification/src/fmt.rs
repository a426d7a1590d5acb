//! Verified textual formatting of identifiers: lowercase hexadecimal
//! and decimal digit strings, as the bridge's advertisement and legacy
//! API surfaces print them.

use vstd::prelude::*;

verus! {

/// The lowercase hexadecimal digit for a value below sixteen.
pub open spec fn spec_hex_char(n: int) -> char {
    if n == 0 {
        '0'
    } else if n == 1 {
        '1'
    } else if n == 2 {
        '2'
    } else if n == 3 {
        '3'
    } else if n == 4 {
        '4'
    } else if n == 5 {
        '5'
    } else if n == 6 {
        '6'
    } else if n == 7 {
        '7'
    } else if n == 8 {
        '8'
    } else if n == 9 {
        '9'
    } else if n == 10 {
        'a'
    } else if n == 11 {
        'b'
    } else if n == 12 {
        'c'
    } else if n == 13 {
        'd'
    } else if n == 14 {
        'e'
    } else {
        'f'
    }
}

/// A byte as two lowercase hexadecimal digits.
pub open spec fn spec_hex_byte(b: u8) -> Seq<char> {
    seq![spec_hex_char(b as int / 16), spec_hex_char(b as int % 16)]
}

/// `digits` hexadecimal digits of `v`, most significant first. When `v`
/// does not fit, only its low digits appear; leading zeroes are kept.
pub open spec fn spec_hex_digits(v: nat, digits: nat) -> Seq<char>
    decreases digits,
{
    if digits == 0 {
        Seq::empty()
    } else {
        spec_hex_digits(v / 16, (digits - 1) as nat) + seq![spec_hex_char((v % 16) as int)]
    }
}

/// The decimal writing of `n`, without leading zeroes.
pub open spec fn spec_dec_digits(n: nat) -> Seq<char>
    decreases n,
{
    if n < 10 {
        seq![spec_hex_char(n as int)]
    } else {
        spec_dec_digits(n / 10) + seq![spec_hex_char((n % 10) as int)]
    }
}

fn digit_str(n: u8) -> (s: &'static str)
    requires
        n < 16,
    ensures
        s@ == seq![spec_hex_char(n as int)],
{
    proof {
        reveal_strlit("0");
        reveal_strlit("1");
        reveal_strlit("2");
        reveal_strlit("3");
        reveal_strlit("4");
        reveal_strlit("5");
        reveal_strlit("6");
        reveal_strlit("7");
        reveal_strlit("8");
        reveal_strlit("9");
        reveal_strlit("a");
        reveal_strlit("b");
        reveal_strlit("c");
        reveal_strlit("d");
        reveal_strlit("e");
        reveal_strlit("f");
    }
    match n {
        0 => "0",
        1 => "1",
        2 => "2",
        3 => "3",
        4 => "4",
        5 => "5",
        6 => "6",
        7 => "7",
        8 => "8",
        9 => "9",
        10 => "a",
        11 => "b",
        12 => "c",
        13 => "d",
        14 => "e",
        _ => "f",
    }
}

/// Appends the two lowercase hexadecimal digits of `b`.
pub fn push_hex_byte(s: &mut String, b: u8)
    ensures
        final(s)@ == old(s)@ + spec_hex_byte(b),
{
    s.append(digit_str(b / 16));
    s.append(digit_str(b % 16));
    assert(s@ =~= old(s)@ + spec_hex_byte(b));
}

/// Appends `digits` lowercase hexadecimal digits of `v`, most
/// significant first, keeping leading zeroes.
pub fn push_hex_u128(s: &mut String, v: u128, digits: u8)
    ensures
        final(s)@ == old(s)@ + spec_hex_digits(v as nat, digits as nat),
    decreases digits,
{
    if digits > 0 {
        push_hex_u128(s, v / 16, digits - 1);
        s.append(digit_str((v % 16) as u8));
        assert(s@ =~= old(s)@ + spec_hex_digits(v as nat, digits as nat));
    } else {
        assert(s@ =~= old(s)@ + spec_hex_digits(v as nat, 0));
    }
}

/// Appends the decimal writing of `n`, without leading zeroes.
pub fn push_dec_u32(s: &mut String, n: u32)
    ensures
        final(s)@ == old(s)@ + spec_dec_digits(n as nat),
    decreases n,
{
    if n < 10 {
        s.append(digit_str(n as u8));
        assert(s@ =~= old(s)@ + spec_dec_digits(n as nat));
    } else {
        push_dec_u32(s, n / 10);
        s.append(digit_str((n % 10) as u8));
        assert(s@ =~= old(s)@ + spec_dec_digits(n as nat));
    }
}

/// The decimal writing of `n` as a fresh string.
pub fn dec_string_u32(n: u32) -> (r: String)
    ensures
        r@ == spec_dec_digits(n as nat),
{
    let mut s = String::new();
    push_dec_u32(&mut s, n);
    assert(s@ =~= spec_dec_digits(n as nat));
    s
}

/// The hyphenated writing of a 128-bit identifier: thirty-two lowercase
/// hexadecimal digits in five dash-separated groups of 8, 4, 4, 4
/// and 12.
pub open spec fn spec_uuid_hyphenated(v: nat) -> Seq<char> {
    spec_hex_digits(v / 0x1000000000000000000000000, 8) + seq!['-'] + spec_hex_digits(
        (v / 0x100000000000000000000) % 0x10000,
        4,
    ) + seq!['-'] + spec_hex_digits((v / 0x10000000000000000) % 0x10000, 4) + seq!['-']
        + spec_hex_digits((v / 0x1000000000000) % 0x10000, 4) + seq!['-'] + spec_hex_digits(
        v % 0x1000000000000,
        12,
    )
}

/// The hyphenated writing of a 128-bit identifier.
pub fn uuid_hyphenated(v: u128) -> (r: String)
    ensures
        r@ == spec_uuid_hyphenated(v as nat),
{
    proof {
        reveal_strlit("-");
    }
    let mut s = String::new();
    push_hex_u128(&mut s, v / 0x1000000000000000000000000, 8);
    s.append("-");
    push_hex_u128(&mut s, (v / 0x100000000000000000000) % 0x10000, 4);
    s.append("-");
    push_hex_u128(&mut s, (v / 0x10000000000000000) % 0x10000, 4);
    s.append("-");
    push_hex_u128(&mut s, (v / 0x1000000000000) % 0x10000, 4);
    s.append("-");
    push_hex_u128(&mut s, v % 0x1000000000000, 12);
    assert(s@ =~= spec_uuid_hyphenated(v as nat));
    s
}

/// The plain writing of a 128-bit identifier: its thirty-two lowercase
/// hexadecimal digits with no separators.
pub fn uuid_simple(v: u128) -> (r: String)
    ensures
        r@ == spec_hex_digits(v as nat, 32),
{
    let mut s = String::new();
    push_hex_u128(&mut s, v, 32);
    assert(s@ =~= spec_hex_digits(v as nat, 32));
    s
}

} // verus!
