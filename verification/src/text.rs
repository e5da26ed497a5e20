//! Verified text rendering: fixed-width hexadecimal literals and printable
//! ASCII substitution, built as character vectors and converted to `String`
//! through one trusted collection step.

use vstd::prelude::*;

verus! {

/// Hexadecimal digit character for a value below sixteen, lower case.
pub open spec fn hex_char_lower(d: nat) -> char {
    if d == 0 {
        '0'
    } else if d == 1 {
        '1'
    } else if d == 2 {
        '2'
    } else if d == 3 {
        '3'
    } else if d == 4 {
        '4'
    } else if d == 5 {
        '5'
    } else if d == 6 {
        '6'
    } else if d == 7 {
        '7'
    } else if d == 8 {
        '8'
    } else if d == 9 {
        '9'
    } else if d == 10 {
        'a'
    } else if d == 11 {
        'b'
    } else if d == 12 {
        'c'
    } else if d == 13 {
        'd'
    } else if d == 14 {
        'e'
    } else {
        'f'
    }
}

/// Hexadecimal digit character for a value below sixteen, upper case.
pub open spec fn hex_char_upper(d: nat) -> char {
    if d == 0 {
        '0'
    } else if d == 1 {
        '1'
    } else if d == 2 {
        '2'
    } else if d == 3 {
        '3'
    } else if d == 4 {
        '4'
    } else if d == 5 {
        '5'
    } else if d == 6 {
        '6'
    } else if d == 7 {
        '7'
    } else if d == 8 {
        '8'
    } else if d == 9 {
        '9'
    } else if d == 10 {
        'A'
    } else if d == 11 {
        'B'
    } else if d == 12 {
        'C'
    } else if d == 13 {
        'D'
    } else if d == 14 {
        'E'
    } else {
        'F'
    }
}

/// The value `v` written as exactly `digits` lower-case hexadecimal digits,
/// most significant first, truncating any higher digits.
pub open spec fn hex_lower(v: nat, digits: nat) -> Seq<char>
    decreases digits,
{
    if digits == 0 {
        Seq::empty()
    } else {
        hex_lower(v / 16, (digits - 1) as nat).push(hex_char_lower(v % 16))
    }
}

/// The value `v` written as exactly `digits` upper-case hexadecimal digits,
/// most significant first, truncating any higher digits.
pub open spec fn hex_upper(v: nat, digits: nat) -> Seq<char>
    decreases digits,
{
    if digits == 0 {
        Seq::empty()
    } else {
        hex_upper(v / 16, (digits - 1) as nat).push(hex_char_upper(v % 16))
    }
}

/// A `0x`-prefixed fixed-width lower-case hexadecimal literal.
pub open spec fn hex_literal(v: nat, digits: nat) -> Seq<char> {
    seq!['0', 'x'] + hex_lower(v, digits)
}

/// Appends the `digits`-wide lower-case hexadecimal form of `v`.
pub fn push_hex_lower(out: &mut Vec<char>, v: u64, digits: usize)
    ensures
        final(out)@ == old(out)@ + hex_lower(v as nat, digits as nat),
    decreases digits,
{
    if digits == 0 {
        proof {
            assert(out@ =~= out@ + hex_lower(v as nat, 0));
        }
        return ;
    }
    push_hex_lower(out, v / 16, digits - 1);
    let d = (v % 16) as u8;
    let c: char = match d {
        0 => '0',
        1 => '1',
        2 => '2',
        3 => '3',
        4 => '4',
        5 => '5',
        6 => '6',
        7 => '7',
        8 => '8',
        9 => '9',
        10 => 'a',
        11 => 'b',
        12 => 'c',
        13 => 'd',
        14 => 'e',
        _ => 'f',
    };
    out.push(c);
    proof {
        assert(out@ =~= old(out)@ + hex_lower(v as nat, digits as nat));
    }
}

/// Appends the `digits`-wide upper-case hexadecimal form of `v`.
pub fn push_hex_upper(out: &mut Vec<char>, v: u64, digits: usize)
    ensures
        final(out)@ == old(out)@ + hex_upper(v as nat, digits as nat),
    decreases digits,
{
    if digits == 0 {
        proof {
            assert(out@ =~= out@ + hex_upper(v as nat, 0));
        }
        return ;
    }
    push_hex_upper(out, v / 16, digits - 1);
    let d = (v % 16) as u8;
    let c: char = match d {
        0 => '0',
        1 => '1',
        2 => '2',
        3 => '3',
        4 => '4',
        5 => '5',
        6 => '6',
        7 => '7',
        8 => '8',
        9 => '9',
        10 => 'A',
        11 => 'B',
        12 => 'C',
        13 => 'D',
        14 => 'E',
        _ => 'F',
    };
    out.push(c);
    proof {
        assert(out@ =~= old(out)@ + hex_upper(v as nat, digits as nat));
    }
}

/// A `0x`-prefixed fixed-width lower-case hexadecimal literal of `v`.
pub fn hex_literal_string(v: u64, digits: usize) -> (s: String)
    ensures
        s@ == hex_literal(v as nat, digits as nat),
{
    let mut out: Vec<char> = Vec::new();
    out.push('0');
    out.push('x');
    proof {
        assert(out@ =~= seq!['0', 'x']);
    }
    push_hex_lower(&mut out, v, digits);
    chars_to_string(out)
}

/// Relies on `core::iter::Iterator::collect` for `String`: collecting
/// characters yields the string of exactly those characters in order.
#[verifier::external_body]
pub fn chars_to_string(v: Vec<char>) -> (s: String)
    ensures
        s@ == v@,
{
    v.into_iter().collect()
}

} // verus!
