//! Decimal digit runs in byte strings.
//!
//! The clock-synchronization path reads unsigned decimal numbers out of the
//! remote time response twice over: free-length digit runs while scanning the
//! JSON text, and fixed-width fields at fixed offsets of the date string.
//! This module gives both readers one vocabulary: what a digit is, where a
//! digit run ends, and what value a run denotes.

use vstd::prelude::*;

verus! {

/// ASCII `'0'`.
pub const DIGIT_ZERO: u8 = 48;

/// ASCII `'9'`.
pub const DIGIT_NINE: u8 = 57;

/// Whether `b` is an ASCII decimal digit.
pub open spec fn spec_is_digit(b: u8) -> bool {
    DIGIT_ZERO <= b <= DIGIT_NINE
}

/// The value of the digit `b`.
pub open spec fn spec_digit_val(b: u8) -> nat
    recommends
        spec_is_digit(b),
{
    (b - DIGIT_ZERO) as nat
}

/// Whether every byte of `s` in `[start, end)` is a digit.
pub open spec fn spec_all_digits(s: Seq<u8>, start: int, end: int) -> bool {
    forall|i: int| start <= i < end ==> spec_is_digit(#[trigger] s[i])
}

/// The value the digit run `s[start..end]` denotes, most significant first.
pub open spec fn spec_digits_value(s: Seq<u8>, start: int, end: int) -> nat
    decreases end - start,
{
    if start >= end {
        0
    } else {
        spec_digits_value(s, start, end - 1) * 10 + spec_digit_val(s[end - 1])
    }
}

/// The end of the digit run that starts at `i`: the first index at or after
/// `i` holding no digit, or the end of `s`.
pub open spec fn spec_digits_end(s: Seq<u8>, i: int) -> int
    decreases s.len() - i,
{
    if 0 <= i < s.len() && spec_is_digit(s[i]) {
        spec_digits_end(s, i + 1)
    } else {
        i
    }
}

/// The run's end lies between its start and the end of `s`, every byte of
/// the run is a digit, and the run is maximal.
pub proof fn lemma_digits_end_shape(s: Seq<u8>, i: int)
    requires
        0 <= i <= s.len(),
    ensures
        i <= spec_digits_end(s, i) <= s.len(),
        spec_all_digits(s, i, spec_digits_end(s, i)),
        spec_digits_end(s, i) < s.len() ==> !spec_is_digit(s[spec_digits_end(s, i)]),
    decreases s.len() - i,
{
    if i < s.len() && spec_is_digit(s[i]) {
        lemma_digits_end_shape(s, i + 1);
    }
}

/// Ten to the `n`.
pub open spec fn spec_pow10(n: nat) -> nat
    decreases n,
{
    if n == 0 {
        1
    } else {
        10 * spec_pow10((n - 1) as nat)
    }
}

/// A digit run of width `w` denotes a value below ten to the `w`.
pub proof fn lemma_digits_value_bound(s: Seq<u8>, start: int, end: int)
    requires
        start <= end,
        spec_all_digits(s, start, end),
    ensures
        spec_digits_value(s, start, end) < spec_pow10((end - start) as nat),
    decreases end - start,
{
    if start < end {
        lemma_digits_value_bound(s, start, end - 1);
        assert(spec_digit_val(s[end - 1]) <= 9);
    }
}

/// A longer prefix of a digit run never denotes a smaller value.
pub proof fn lemma_digits_value_monotone(s: Seq<u8>, start: int, mid: int, end: int)
    requires
        start <= mid <= end,
    ensures
        spec_digits_value(s, start, mid) <= spec_digits_value(s, start, end),
    decreases end - mid,
{
    if mid < end {
        lemma_digits_value_monotone(s, start, mid, end - 1);
        assert(spec_digits_value(s, start, end) >= spec_digits_value(s, start, end - 1) * 10);
    }
}

/// Whether `b` is an ASCII decimal digit.
pub fn is_digit(b: u8) -> (r: bool)
    ensures
        r == spec_is_digit(b),
{
    DIGIT_ZERO <= b && b <= DIGIT_NINE
}

/// The end of the digit run of `s` that starts at `i`.
pub fn digits_end(s: &[u8], i: usize) -> (r: usize)
    requires
        i <= s@.len(),
    ensures
        r == spec_digits_end(s@, i as int),
        i <= r <= s@.len(),
{
    let mut j = i;
    while j < s.len() && is_digit(s[j])
        invariant
            i <= j <= s@.len(),
            spec_digits_end(s@, i as int) == spec_digits_end(s@, j as int),
        decreases s@.len() - j,
    {
        j = j + 1;
    }
    j
}

/// Reads the fixed-width field `s[start..start + width]` as an unsigned
/// decimal number. Returns its value when every byte of the field is a
/// digit, and nothing otherwise.
pub fn parse_fixed_digits(s: &[u8], start: usize, width: usize) -> (r: Option<u16>)
    requires
        start + width <= s@.len(),
        width <= 4,
    ensures
        r == if spec_all_digits(s@, start as int, (start + width) as int) {
            Some(spec_digits_value(s@, start as int, (start + width) as int) as u16)
        } else {
            None::<u16>
        },
{
    let n: usize = s.len();
    let end = start + width;
    let mut j = start;
    let mut acc: u16 = 0;
    while j < end
        invariant
            start <= j <= end,
            end == start + width,
            end <= s@.len(),
            width <= 4,
            spec_all_digits(s@, start as int, j as int),
            acc == spec_digits_value(s@, start as int, j as int),
        decreases end - j,
    {
        if !is_digit(s[j]) {
            return None;
        }
        proof {
            assert(acc < 1000) by {
                lemma_digits_value_bound(s@, start as int, j as int);
                reveal_with_fuel(spec_pow10, 5);
            }
        }
        acc = acc * 10 + (s[j] - DIGIT_ZERO) as u16;
        j = j + 1;
    }
    Some(acc)
}

} // verus!
