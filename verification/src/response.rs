//! Reader for the remote time document.
//!
//! The time service answers `GET {base_url}/now` with a single JSON object
//! of two members, `"now"` holding the date string and `"weekday"` holding a
//! small unsigned integer, in either order, with arbitrary blank space
//! between tokens and after the closing brace. This module reads exactly
//! that shape: the date string is taken verbatim between its quotes (the
//! document never carries escapes), the weekday must fit a byte, and
//! anything else — a missing or repeated member, a stray token, trailing
//! text — is not the time document. The spec functions define the grammar;
//! each reader is proved to return precisely what they denote.

use vstd::prelude::*;

use crate::digits::{
    digits_end, lemma_digits_end_shape, lemma_digits_value_monotone, spec_digits_end,
    spec_digits_value, DIGIT_ZERO,
};

verus! {

/// ASCII `'{'`.
pub const LEFT_BRACE: u8 = 123;

/// ASCII `'}'`.
pub const RIGHT_BRACE: u8 = 125;

/// ASCII `'"'`.
pub const QUOTE: u8 = 34;

/// ASCII `':'`.
pub const COLON: u8 = 58;

/// ASCII `','`.
pub const COMMA: u8 = 44;

/// The name of the date member.
pub open spec fn spec_now_name() -> Seq<u8> {
    seq![110u8, 111u8, 119u8]
}

/// The name of the weekday member.
pub open spec fn spec_weekday_name() -> Seq<u8> {
    seq![119u8, 101u8, 101u8, 107u8, 100u8, 97u8, 121u8]
}

/// Whether `b` is JSON blank space: space, tab, line feed or carriage
/// return.
pub open spec fn spec_is_ws(b: u8) -> bool {
    b == 32 || b == 9 || b == 10 || b == 13
}

/// The first index at or after `i` holding no blank space, or the end.
pub open spec fn spec_skip_ws(s: Seq<u8>, i: int) -> int
    decreases s.len() - i,
{
    if 0 <= i < s.len() && spec_is_ws(s[i]) {
        spec_skip_ws(s, i + 1)
    } else {
        i
    }
}

/// Skipping blank space stays within `[i, s.len()]`.
pub proof fn lemma_skip_ws_shape(s: Seq<u8>, i: int)
    requires
        0 <= i <= s.len(),
    ensures
        i <= spec_skip_ws(s, i) <= s.len(),
    decreases s.len() - i,
{
    if i < s.len() && spec_is_ws(s[i]) {
        lemma_skip_ws_shape(s, i + 1);
    }
}

/// The first index at or after `i` holding a quote, or the end of `s`.
pub open spec fn spec_find_quote(s: Seq<u8>, i: int) -> int
    decreases s.len() - i,
{
    if 0 <= i < s.len() {
        if s[i] == QUOTE {
            i
        } else {
            spec_find_quote(s, i + 1)
        }
    } else {
        i
    }
}

/// The quote search stays within `[i, s.len()]`.
pub proof fn lemma_find_quote_shape(s: Seq<u8>, i: int)
    requires
        0 <= i <= s.len(),
    ensures
        i <= spec_find_quote(s, i) <= s.len(),
    decreases s.len() - i,
{
    if i < s.len() && s[i] != QUOTE {
        lemma_find_quote_shape(s, i + 1);
    }
}

/// A string token at `i`: an opening quote, content bytes, and the next
/// quote closing it. Its value is the content verbatim; a string that never
/// closes is no token.
pub open spec fn spec_parse_string(s: Seq<u8>, i: int) -> Option<(Seq<u8>, int)> {
    if 0 <= i < s.len() && s[i] == QUOTE {
        let close = spec_find_quote(s, i + 1);
        if close < s.len() {
            Some((s.subrange(i + 1, close), close + 1))
        } else {
            None
        }
    } else {
        None
    }
}

/// A number token at `i`: a nonempty digit run denoting at most 255. Its
/// value is the run's; a longer run or an absent one is no token.
pub open spec fn spec_parse_small_uint(s: Seq<u8>, i: int) -> Option<(u8, int)> {
    let end = spec_digits_end(s, i);
    if end == i {
        None
    } else if spec_digits_value(s, i, end) > 255 {
        None
    } else {
        Some((spec_digits_value(s, i, end) as u8, end))
    }
}

/// A member name at `i`: a quote, the name's bytes verbatim, a quote.
pub open spec fn spec_key_at(s: Seq<u8>, i: int, name: Seq<u8>) -> bool {
    &&& 0 <= i
    &&& i + name.len() + 2 <= s.len()
    &&& s[i] == QUOTE
    &&& s.subrange(i + 1, i + 1 + name.len()) == name
    &&& s[i + 1 + name.len()] == QUOTE
}

/// Where a member's value starts, after its name at `i`, blank space, the
/// colon, and blank space again; or nothing if the name or colon is absent.
pub open spec fn spec_after_key(s: Seq<u8>, i: int, name: Seq<u8>) -> Option<int> {
    if spec_key_at(s, i, name) {
        let j = spec_skip_ws(s, i + name.len() + 2);
        if j < s.len() && s[j] == COLON {
            Some(spec_skip_ws(s, j + 1))
        } else {
            None
        }
    } else {
        None
    }
}

/// The date member at `i`: its name, the colon, and a string token.
pub open spec fn spec_parse_now_member(s: Seq<u8>, i: int) -> Option<(Seq<u8>, int)> {
    match spec_after_key(s, i, spec_now_name()) {
        Some(j) => spec_parse_string(s, j),
        None => None,
    }
}

/// The weekday member at `i`: its name, the colon, and a number token.
pub open spec fn spec_parse_weekday_member(s: Seq<u8>, i: int) -> Option<(u8, int)> {
    match spec_after_key(s, i, spec_weekday_name()) {
        Some(j) => spec_parse_small_uint(s, j),
        None => None,
    }
}

/// Whether the object closes at `i`: blank space, the closing brace, and
/// blank space to the very end of the document.
pub open spec fn spec_closes(s: Seq<u8>, i: int) -> bool {
    let j = spec_skip_ws(s, i);
    &&& j < s.len()
    &&& s[j] == RIGHT_BRACE
    &&& spec_skip_ws(s, j + 1) == s.len()
}

/// The time document: one object holding the date member and the weekday
/// member, in either order, and nothing else. Its value is the date string
/// and the weekday.
pub open spec fn spec_parse_now_response(s: Seq<u8>) -> Option<(Seq<u8>, u8)> {
    let i = spec_skip_ws(s, 0);
    if i < s.len() && s[i] == LEFT_BRACE {
        let j = spec_skip_ws(s, i + 1);
        match spec_parse_now_member(s, j) {
            Some((now, k)) => {
                let c = spec_skip_ws(s, k);
                if c < s.len() && s[c] == COMMA {
                    match spec_parse_weekday_member(s, spec_skip_ws(s, c + 1)) {
                        Some((weekday, m)) => if spec_closes(s, m) {
                            Some((now, weekday))
                        } else {
                            None
                        },
                        None => None,
                    }
                } else {
                    None
                }
            },
            None => match spec_parse_weekday_member(s, j) {
                Some((weekday, k)) => {
                    let c = spec_skip_ws(s, k);
                    if c < s.len() && s[c] == COMMA {
                        match spec_parse_now_member(s, spec_skip_ws(s, c + 1)) {
                            Some((now, m)) => if spec_closes(s, m) {
                                Some((now, weekday))
                            } else {
                                None
                            },
                            None => None,
                        }
                    } else {
                        None
                    }
                },
                None => None,
            },
        }
    } else {
        None
    }
}

/// Skips blank space from `i`.
fn skip_ws(s: &[u8], i: usize) -> (r: usize)
    requires
        i <= s@.len(),
    ensures
        r == spec_skip_ws(s@, i as int),
        i <= r <= s@.len(),
{
    let mut j = i;
    while j < s.len() && (s[j] == 32 || s[j] == 9 || s[j] == 10 || s[j] == 13)
        invariant
            i <= j <= s@.len(),
            spec_skip_ws(s@, i as int) == spec_skip_ws(s@, j as int),
        decreases s@.len() - j,
    {
        j = j + 1;
    }
    j
}

/// Finds the next quote at or after `i`.
fn find_quote(s: &[u8], i: usize) -> (r: usize)
    requires
        i <= s@.len(),
    ensures
        r == spec_find_quote(s@, i as int),
        i <= r <= s@.len(),
{
    let mut j = i;
    while j < s.len() && s[j] != QUOTE
        invariant
            i <= j <= s@.len(),
            spec_find_quote(s@, i as int) == spec_find_quote(s@, j as int),
        decreases s@.len() - j,
    {
        j = j + 1;
    }
    j
}

/// Reads a string token at `i`.
fn parse_string(s: &[u8], i: usize) -> (r: Option<(Vec<u8>, usize)>)
    requires
        i <= s@.len(),
    ensures
        match r {
            Some((content, next)) => spec_parse_string(s@, i as int) == Some(
                (content@, next as int),
            ),
            None => spec_parse_string(s@, i as int) is None,
        },
{
    if i >= s.len() || s[i] != QUOTE {
        return None;
    }
    let close = find_quote(s, i + 1);
    if close >= s.len() {
        return None;
    }
    let mut content: Vec<u8> = Vec::new();
    let mut k = i + 1;
    while k < close
        invariant
            i + 1 <= k <= close < s@.len(),
            content@ == s@.subrange(i + 1, k as int),
        decreases close - k,
    {
        content.push(s[k]);
        proof {
            assert(content@ =~= s@.subrange(i + 1, k + 1));
        }
        k = k + 1;
    }
    proof {
        assert(content@ =~= s@.subrange(i + 1, close as int));
    }
    Some((content, close + 1))
}

/// Reads a number token at `i`.
fn parse_small_uint(s: &[u8], i: usize) -> (r: Option<(u8, usize)>)
    requires
        i <= s@.len(),
    ensures
        match r {
            Some((value, next)) => spec_parse_small_uint(s@, i as int) == Some(
                (value, next as int),
            ),
            None => spec_parse_small_uint(s@, i as int) is None,
        },
{
    let end = digits_end(s, i);
    if end == i {
        return None;
    }
    let mut j = i;
    let mut acc: u32 = 0;
    while j < end
        invariant
            i <= j <= end <= s@.len(),
            end == spec_digits_end(s@, i as int),
            acc == spec_digits_value(s@, i as int, j as int),
            acc <= 255,
        decreases end - j,
    {
        proof {
            lemma_digits_end_shape(s@, i as int);
        }
        let next_acc = acc * 10 + (s[j] - DIGIT_ZERO) as u32;
        proof {
            assert(next_acc == spec_digits_value(s@, i as int, j + 1));
        }
        if next_acc > 255 {
            proof {
                lemma_digits_value_monotone(s@, i as int, j + 1, end as int);
            }
            return None;
        }
        acc = next_acc;
        j = j + 1;
    }
    Some((acc as u8, end))
}

/// Matches a member name at `i` and steps past the colon to its value.
fn after_key(s: &[u8], i: usize, name: &[u8]) -> (r: Option<usize>)
    requires
        i <= s@.len(),
        name@.len() <= 100,
    ensures
        match r {
            Some(next) => spec_after_key(s@, i as int, name@) == Some(next as int),
            None => spec_after_key(s@, i as int, name@) is None,
        },
{
    let n = s.len();
    let nl = name.len();
    if i >= n || n - i < nl + 2 {
        return None;
    }
    if s[i] != QUOTE || s[i + 1 + nl] != QUOTE {
        return None;
    }
    let mut k: usize = 0;
    while k < nl
        invariant
            0 <= k <= nl,
            nl == name@.len(),
            n == s@.len(),
            i + nl + 2 <= n,
            forall|t: int| 0 <= t < k ==> s@[i + 1 + t] == name@[t],
        decreases nl - k,
    {
        if s[i + 1 + k] != name[k] {
            proof {
                assert(s@.subrange(i + 1, i + 1 + nl)[k as int] != name@[k as int]);
            }
            return None;
        }
        k = k + 1;
    }
    proof {
        assert(s@.subrange(i + 1, i + 1 + nl) =~= name@);
    }
    let j = skip_ws(s, i + nl + 2);
    if j >= n || s[j] != COLON {
        return None;
    }
    Some(skip_ws(s, j + 1))
}

/// Reads the date member at `i`.
fn parse_now_member(s: &[u8], i: usize) -> (r: Option<(Vec<u8>, usize)>)
    requires
        i <= s@.len(),
    ensures
        match r {
            Some((now, next)) => spec_parse_now_member(s@, i as int) == Some(
                (now@, next as int),
            ),
            None => spec_parse_now_member(s@, i as int) is None,
        },
{
    let name: [u8; 3] = [110, 111, 119];
    proof {
        assert(name@ =~= spec_now_name());
    }
    match after_key(s, i, name.as_slice()) {
        Some(j) => {
            proof {
                lemma_key_value_in_range(s@, i as int, spec_now_name());
            }
            parse_string(s, j)
        },
        None => None,
    }
}

/// Reads the weekday member at `i`.
fn parse_weekday_member(s: &[u8], i: usize) -> (r: Option<(u8, usize)>)
    requires
        i <= s@.len(),
    ensures
        match r {
            Some((weekday, next)) => spec_parse_weekday_member(s@, i as int) == Some(
                (weekday, next as int),
            ),
            None => spec_parse_weekday_member(s@, i as int) is None,
        },
{
    let name: [u8; 7] = [119, 101, 101, 107, 100, 97, 121];
    proof {
        assert(name@ =~= spec_weekday_name());
    }
    match after_key(s, i, name.as_slice()) {
        Some(j) => {
            proof {
                lemma_key_value_in_range(s@, i as int, spec_weekday_name());
            }
            parse_small_uint(s, j)
        },
        None => None,
    }
}

/// Where a member's value starts lies within the document.
proof fn lemma_key_value_in_range(s: Seq<u8>, i: int, name: Seq<u8>)
    requires
        0 <= i <= s.len(),
    ensures
        match spec_after_key(s, i, name) {
            Some(j) => 0 <= j <= s.len(),
            None => true,
        },
{
    if spec_key_at(s, i, name) {
        lemma_skip_ws_shape(s, i + name.len() + 2);
        let j = spec_skip_ws(s, i + name.len() + 2);
        if j < s.len() && s[j] == COLON {
            lemma_skip_ws_shape(s, j + 1);
        }
    }
}

/// Whether the object closes at `i`; `i` must lie within the document.
fn closes(s: &[u8], i: usize) -> (r: bool)
    requires
        i <= s@.len(),
    ensures
        r == spec_closes(s@, i as int),
{
    let j = skip_ws(s, i);
    if j >= s.len() || s[j] != RIGHT_BRACE {
        return false;
    }
    skip_ws(s, j + 1) == s.len()
}

/// Reads the whole time document: the date string verbatim and the weekday,
/// or nothing if the body is not the document. Exactly the denotation of
/// `spec_parse_now_response`.
pub fn parse_now_response(body: &[u8]) -> (r: Option<(Vec<u8>, u8)>)
    ensures
        match r {
            Some((now, weekday)) => spec_parse_now_response(body@) == Some((now@, weekday)),
            None => spec_parse_now_response(body@) is None,
        },
{
    let s = body;
    let i = skip_ws(s, 0);
    if i >= s.len() || s[i] != LEFT_BRACE {
        return None;
    }
    let j = skip_ws(s, i + 1);
    match parse_now_member(s, j) {
        Some((now, k)) => {
            proof {
                lemma_now_member_in_range(s@, j as int);
            }
            let c = skip_ws(s, k);
            if c >= s.len() || s[c] != COMMA {
                return None;
            }
            let m0 = skip_ws(s, c + 1);
            match parse_weekday_member(s, m0) {
                Some((weekday, m)) => {
                    proof {
                        lemma_weekday_member_in_range(s@, m0 as int);
                    }
                    if closes(s, m) {
                        Some((now, weekday))
                    } else {
                        None
                    }
                },
                None => None,
            }
        },
        None => {
            match parse_weekday_member(s, j) {
                Some((weekday, k)) => {
                    proof {
                        lemma_weekday_member_in_range(s@, j as int);
                    }
                    let c = skip_ws(s, k);
                    if c >= s.len() || s[c] != COMMA {
                        return None;
                    }
                    let m0 = skip_ws(s, c + 1);
                    match parse_now_member(s, m0) {
                        Some((now, m)) => {
                            proof {
                                lemma_now_member_in_range(s@, m0 as int);
                            }
                            if closes(s, m) {
                                Some((now, weekday))
                            } else {
                                None
                            }
                        },
                        None => None,
                    }
                },
                None => None,
            }
        },
    }
}

/// A date member's end lies within the document.
proof fn lemma_now_member_in_range(s: Seq<u8>, i: int)
    requires
        0 <= i <= s.len(),
    ensures
        match spec_parse_now_member(s, i) {
            Some((now, next)) => 0 <= next <= s.len(),
            None => true,
        },
{
    lemma_key_value_in_range(s, i, spec_now_name());
    match spec_after_key(s, i, spec_now_name()) {
        Some(j) => {
            if 0 <= j < s.len() && s[j] == QUOTE {
                lemma_find_quote_shape(s, j + 1);
            }
        },
        None => {},
    }
}

/// A weekday member's end lies within the document.
proof fn lemma_weekday_member_in_range(s: Seq<u8>, i: int)
    requires
        0 <= i <= s.len(),
    ensures
        match spec_parse_weekday_member(s, i) {
            Some((weekday, next)) => 0 <= next <= s.len(),
            None => true,
        },
{
    lemma_key_value_in_range(s, i, spec_weekday_name());
    match spec_after_key(s, i, spec_weekday_name()) {
        Some(j) => {
            lemma_digits_end_shape(s, j);
        },
        None => {},
    }
}

} // verus!
