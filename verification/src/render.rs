//! Decimal text rendering for the publish payload.
//!
//! The publisher writes its JSON body into a bounded text buffer: timestamp
//! fields as zero-padded decimal numbers, temperature and humidity as signed
//! decimals with exactly two places. Readings travel through the node in
//! hundredths, so the two-place rendering is exact division by one hundred,
//! never a rounding. The spec functions define each lexical form; the
//! builders are proved to append precisely that text.

use vstd::prelude::*;

use vstd::string::StringExecFns;
use vstd::string::StrSliceExecFns;

verus! {

/// The digit character for `d`.
pub open spec fn spec_digit_char(d: nat) -> char {
    if d == 0 {
        '0'
    } else if d == 1 {
        '1'
    } else if d == 2 {
        '2'
    } else if d == 3 {
        '3'
    } else if d == 4 {
        '4'
    } else if d == 5 {
        '5'
    } else if d == 6 {
        '6'
    } else if d == 7 {
        '7'
    } else if d == 8 {
        '8'
    } else {
        '9'
    }
}

/// `n` in decimal, most significant digit first, no sign, no padding.
pub open spec fn spec_dec_str(n: nat) -> Seq<char>
    decreases n,
{
    if n < 10 {
        seq![spec_digit_char(n)]
    } else {
        spec_dec_str(n / 10).push(spec_digit_char(n % 10))
    }
}

/// `n` in decimal, zero-padded to at least two digits.
pub open spec fn spec_pad2_str(n: nat) -> Seq<char> {
    if n < 10 {
        seq!['0'] + spec_dec_str(n)
    } else {
        spec_dec_str(n)
    }
}

/// `n` in decimal, zero-padded to at least four digits.
pub open spec fn spec_pad4_str(n: nat) -> Seq<char> {
    if n < 10 {
        seq!['0', '0', '0'] + spec_dec_str(n)
    } else if n < 100 {
        seq!['0', '0'] + spec_dec_str(n)
    } else if n < 1000 {
        seq!['0'] + spec_dec_str(n)
    } else {
        spec_dec_str(n)
    }
}

/// A count of hundredths as a signed decimal with exactly two places: the
/// sign for a negative count, the whole part, a point, and the hundredths
/// zero-padded to two digits.
pub open spec fn spec_centi_str(v: int) -> Seq<char> {
    if v < 0 {
        seq!['-'] + spec_centi_abs_str((-v) as nat)
    } else {
        spec_centi_abs_str(v as nat)
    }
}

/// An unsigned count of hundredths with exactly two places.
pub open spec fn spec_centi_abs_str(n: nat) -> Seq<char> {
    spec_dec_str(n / 100) + seq!['.'] + spec_pad2_str(n % 100)
}

/// The one-character text for the digit `d`.
fn digit_str(d: u8) -> (r: &'static str)
    requires
        d < 10,
    ensures
        r@ == seq![spec_digit_char(d as nat)],
{
    proof {
        reveal_strlit("0");
        reveal_strlit("1");
        reveal_strlit("2");
        reveal_strlit("3");
        reveal_strlit("4");
        reveal_strlit("5");
        reveal_strlit("6");
        reveal_strlit("7");
        reveal_strlit("8");
        reveal_strlit("9");
    }
    match d {
        0 => "0",
        1 => "1",
        2 => "2",
        3 => "3",
        4 => "4",
        5 => "5",
        6 => "6",
        7 => "7",
        8 => "8",
        _ => "9",
    }
}

/// Appends `n` in decimal, no padding.
pub fn push_decimal(s: &mut String, n: u64)
    ensures
        final(s)@ == old(s)@ + spec_dec_str(n as nat),
    decreases n,
{
    if n >= 10 {
        push_decimal(s, n / 10);
        s.append(digit_str((n % 10) as u8));
        proof {
            assert(s@ =~= old(s)@ + spec_dec_str(n as nat));
        }
    } else {
        s.append(digit_str(n as u8));
    }
}

/// Appends `n` zero-padded to at least two digits.
pub fn push_pad2(s: &mut String, n: u64)
    ensures
        final(s)@ == old(s)@ + spec_pad2_str(n as nat),
{
    proof {
        reveal_strlit("0");
    }
    if n < 10 {
        s.append("0");
    }
    push_decimal(s, n);
    proof {
        assert(s@ =~= old(s)@ + spec_pad2_str(n as nat));
    }
}

/// Appends `n` zero-padded to at least four digits.
pub fn push_pad4(s: &mut String, n: u64)
    ensures
        final(s)@ == old(s)@ + spec_pad4_str(n as nat),
{
    proof {
        reveal_strlit("0");
        reveal_strlit("00");
        reveal_strlit("000");
    }
    if n < 10 {
        s.append("000");
    } else if n < 100 {
        s.append("00");
    } else if n < 1000 {
        s.append("0");
    }
    push_decimal(s, n);
    proof {
        assert(s@ =~= old(s)@ + spec_pad4_str(n as nat));
    }
}

/// Appends a count of hundredths as a signed two-place decimal.
pub fn push_centi(s: &mut String, v: i32)
    ensures
        final(s)@ == old(s)@ + spec_centi_str(v as int),
{
    proof {
        reveal_strlit("-");
        reveal_strlit(".");
    }
    let magnitude: u64 = if v < 0 {
        s.append("-");
        (-(v as i64)) as u64
    } else {
        v as u64
    };
    push_decimal(s, magnitude / 100);
    s.append(".");
    push_pad2(s, magnitude % 100);
    proof {
        assert(s@ =~= old(s)@ + spec_centi_str(v as int));
    }
}

} // verus!
