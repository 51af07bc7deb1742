//! Extraction of a canonical `vMAJOR.MINOR.PATCH` token from free-form text.
use vstd::prelude::*;

use crate::error::ShimError;
use crate::text::white;

verus! {

/// A character of Unicode general category `Nd` (decimal number).
pub uninterp spec fn decimal_number(c: char) -> bool;

/// A decimal digit. Unicode puts no `Nd` character in `White_Space`.
pub open spec fn is_digit(c: char) -> bool {
    decimal_number(c) && !white(c)
}

/// Relies on the regex crate's `\d`, documented as `\p{Nd}`: whether `c`
/// is a Unicode decimal digit (which is never white space).
#[verifier::external_body]
fn is_decimal_digit(c: char) -> (r: bool)
    ensures
        r == (decimal_number(c) && !white(c)),
{
    let mut buf = [0u8; 4];
    match regex::Regex::new(r"^\d$") {
        Ok(re) => re.is_match(c.encode_utf8(&mut buf)),
        Err(_) => false,
    }
}

/// Length of the maximal run of digits in `s` that starts at `i`.
pub open spec fn digit_run(s: Seq<char>, i: int) -> nat
    decreases s.len() - i,
{
    if 0 <= i < s.len() && is_digit(s[i]) {
        1 + digit_run(s, i + 1)
    } else {
        0
    }
}

/// Start of the minor digits of a token that begins at `i`.
pub open spec fn minor_start(s: Seq<char>, i: int) -> int {
    i + 1 + digit_run(s, i + 1) + 1
}

/// Start of the patch digits of a token that begins at `i`.
pub open spec fn patch_start(s: Seq<char>, i: int) -> int {
    minor_start(s, i) + digit_run(s, minor_start(s, i)) + 1
}

/// End (exclusive) of a token that begins at `i`.
pub open spec fn token_end(s: Seq<char>, i: int) -> int {
    patch_start(s, i) + digit_run(s, patch_start(s, i))
}

/// A token `v<digits>.<digits>.<digits>` starts at `i`; each digit group is
/// taken as long as it goes.
pub open spec fn token_at(s: Seq<char>, i: int) -> bool {
    &&& 0 <= i < s.len()
    &&& s[i] == 'v'
    &&& digit_run(s, i + 1) > 0
    &&& minor_start(s, i) - 1 < s.len()
    &&& s[minor_start(s, i) - 1] == '.'
    &&& digit_run(s, minor_start(s, i)) > 0
    &&& patch_start(s, i) - 1 < s.len()
    &&& s[patch_start(s, i) - 1] == '.'
    &&& digit_run(s, patch_start(s, i)) > 0
}

/// The leftmost position at or after `i` where a token starts.
pub open spec fn first_token_from(s: Seq<char>, i: int) -> Option<int>
    decreases s.len() - i,
{
    if i < 0 || i >= s.len() {
        None
    } else if token_at(s, i) {
        Some(i)
    } else {
        first_token_from(s, i + 1)
    }
}

/// The canonical form of `s`: its leftmost token, or nothing when it holds none.
pub open spec fn normalized(s: Seq<char>) -> Option<Seq<char>> {
    match first_token_from(s, 0) {
        Some(i) => Some(s.subrange(i, token_end(s, i))),
        None => None,
    }
}

proof fn lemma_digit_run_bound(s: Seq<char>, i: int)
    requires
        0 <= i,
    ensures
        i + digit_run(s, i) <= s.len() || digit_run(s, i) == 0,
        forall|k: int| i <= k < i + digit_run(s, i) ==> is_digit(#[trigger] s[k]),
        i + digit_run(s, i) < s.len() ==> !is_digit(s[i + digit_run(s, i)]),
    decreases s.len() - i,
{
    if 0 <= i < s.len() && is_digit(s[i]) {
        lemma_digit_run_bound(s, i + 1);
    }
}

/// A digit run read inside a window that holds all of it is the same run.
proof fn lemma_digit_run_window(s: Seq<char>, lo: int, hi: int, j: int)
    requires
        0 <= lo <= j <= hi <= s.len(),
        j + digit_run(s, j) <= hi,
    ensures
        digit_run(s.subrange(lo, hi), j - lo) == digit_run(s, j),
    decreases hi - j,
{
    let t = s.subrange(lo, hi);
    if j < hi && is_digit(s[j]) {
        lemma_digit_run_window(s, lo, hi, j + 1);
    } else if j < hi {
        assert(t[j - lo] == s[j]);
    }
}

/// Normalizing a canonical token gives it back unchanged.
pub proof fn lemma_normalize_idempotent(s: Seq<char>)
    requires
        normalized(s) is Some,
    ensures
        normalized(normalized(s)->0) == normalized(s),
{
    let i = first_token_from(s, 0)->0;
    lemma_first_token_found(s, 0);
    let e = token_end(s, i);
    let t = s.subrange(i, e);
    let m = minor_start(s, i);
    let p = patch_start(s, i);
    lemma_digit_run_bound(s, i + 1);
    lemma_digit_run_bound(s, m);
    lemma_digit_run_bound(s, p);
    lemma_digit_run_window(s, i, e, i + 1);
    lemma_digit_run_window(s, i, e, m);
    lemma_digit_run_window(s, i, e, p);
    assert(minor_start(t, 0) == m - i);
    assert(patch_start(t, 0) == p - i);
    assert(token_end(t, 0) == e - i);
    assert(t[0] == s[i]);
    assert(t[m - i - 1] == s[m - 1]);
    assert(t[p - i - 1] == s[p - 1]);
    assert(token_at(t, 0));
    assert(t.subrange(0, e - i) =~= t);
}

proof fn lemma_first_token_found(s: Seq<char>, i: int)
    requires
        first_token_from(s, i) is Some,
    ensures
        token_at(s, first_token_from(s, i)->0),
        i <= first_token_from(s, i)->0,
    decreases s.len() - i,
{
    if 0 <= i < s.len() && !token_at(s, i) {
        lemma_first_token_found(s, i + 1);
    }
}

/// A canonical version starts with `v` and ends with a digit.
pub proof fn lemma_normalized_shape(s: Seq<char>)
    requires
        normalized(s) is Some,
    ensures
        normalized(s)->0.len() > 0,
        normalized(s)->0[0] == 'v',
        is_digit(normalized(s)->0.last()),
{
    let i = first_token_from(s, 0)->0;
    lemma_first_token_found(s, 0);
    let p = patch_start(s, i);
    lemma_digit_run_bound(s, i + 1);
    lemma_digit_run_bound(s, minor_start(s, i));
    lemma_digit_run_bound(s, p);
    let t = normalized(s)->0;
    assert(t.last() == s[token_end(s, i) - 1]);
}

/// Length of the run of digits of `s` that starts at character `i`.
fn scan_digits(s: &str, len: usize, i: usize) -> (n: usize)
    requires
        len == s@.len(),
        i <= len,
    ensures
        n == digit_run(s@, i as int),
        i + n <= len,
{
    let mut j: usize = i;
    while j < len && is_decimal_digit(s.get_char(j))
        invariant
            i <= j <= len,
            len == s@.len(),
            digit_run(s@, i as int) == (j - i) + digit_run(s@, j as int),
        decreases len - j,
    {
        j = j + 1;
    }
    j - i
}

/// End of the token that starts at character `i`, when one does.
fn token_end_at(s: &str, len: usize, i: usize) -> (r: Option<usize>)
    requires
        len == s@.len(),
        i < len,
    ensures
        r is Some <==> token_at(s@, i as int),
        r is Some ==> r->0 == token_end(s@, i as int) && r->0 <= len,
{
    if s.get_char(i) != 'v' {
        return None;
    }
    let n1 = scan_digits(s, len, i + 1);
    if n1 == 0 || i + 1 + n1 >= len || s.get_char(i + 1 + n1) != '.' {
        return None;
    }
    let m = i + 1 + n1 + 1;
    let n2 = scan_digits(s, len, m);
    if n2 == 0 || m + n2 >= len || s.get_char(m + n2) != '.' {
        return None;
    }
    let p = m + n2 + 1;
    let n3 = scan_digits(s, len, p);
    if n3 == 0 {
        return None;
    }
    Some(p + n3)
}

/// The leftmost `vX.Y.Z` token of `version`, with its digit groups as written.
///
/// Fails with `MalformedVersion` when `version` holds no such token.
pub fn normalize_version(version: &str) -> (r: Result<String, ShimError>)
    ensures
        r is Ok <==> normalized(version@) is Some,
        r is Ok ==> r->Ok_0@ == normalized(version@)->0,
        r is Err ==> r->Err_0 == ShimError::MalformedVersion,
{
    let len = version.unicode_len();
    let mut i: usize = 0;
    while i < len
        invariant
            i <= len,
            len == version@.len(),
            first_token_from(version@, 0) == first_token_from(version@, i as int),
        decreases len - i,
    {
        match token_end_at(version, len, i) {
            Some(end) => {
                let token = version.substring_char(i, end);
                return Ok(token.to_owned());
            },
            None => {
                i = i + 1;
            },
        }
    }
    Err(ShimError::MalformedVersion)
}

} // verus!
