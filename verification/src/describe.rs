//! Parsing of the git "nearest tag plus distance" description string.
//!
//! A description string either has the shape
//! `<tag>-<distance>-g<hex commit>` — `<distance>` a nonempty run of decimal
//! digits, `<hex commit>` a nonempty run of lower-case hex digits — or it is
//! a bare tag (the commit is exactly on the tag).  `<tag>` is the longest
//! prefix for which the remainder has that shape, so a split is searched
//! from the right.  A tag name that itself embeds a `-N-gHEX` suffix is
//! indistinguishable from a real suffix; this is a known limitation of the
//! format, not of the parser.

use vstd::prelude::*;
use vstd::string::StrSliceExecFns;
use vstd::string::StringExecFns;

use crate::strutil::is_digit;

verus! {

/// `c` is a lower-case hexadecimal digit.
pub open spec fn is_hex_lower(c: char) -> bool {
    is_digit(c) || ('a' <= c && c <= 'f')
}

/// The end of the run of decimal digits that starts at `j`: the first index
/// at or after `j` that does not hold a digit.
pub open spec fn digit_run_end(s: Seq<char>, j: int) -> int
    decreases s.len() - j when 0 <= j <= s.len()
{
    if j < s.len() && is_digit(s[j]) {
        digit_run_end(s, j + 1)
    } else {
        j
    }
}

proof fn lemma_digit_run_end(s: Seq<char>, j: int)
    requires
        0 <= j <= s.len(),
    ensures
        j <= digit_run_end(s, j) <= s.len(),
        forall|m: int| j <= m < digit_run_end(s, j) ==> is_digit(s[m]),
    decreases s.len() - j,
{
    if j < s.len() && is_digit(s[j]) {
        lemma_digit_run_end(s, j + 1);
    }
}

/// The description string can be split at `i`: `s[i]` is a dash introducing
/// a nonempty digit run, then a dash, a 'g', and nonempty lower-case hex to
/// the end.
pub open spec fn match_at(s: Seq<char>, i: int) -> bool {
    let k = digit_run_end(s, i + 1);
    &&& 0 <= i < s.len()
    &&& s[i] == '-'
    &&& i + 1 < k
    &&& k + 2 < s.len()
    &&& s[k] == '-'
    &&& s[k + 1] == 'g'
    &&& forall|j: int| k + 2 <= j < s.len() ==> is_hex_lower(s[j])
}

/// The rightmost split position at or below `i`, or -1 if there is none.
pub open spec fn last_match(s: Seq<char>, i: int) -> int
    decreases i + 1 when i >= -1
{
    if i < 0 {
        -1
    } else if match_at(s, i) {
        i
    } else {
        last_match(s, i - 1)
    }
}

/// The split position of the whole string: the rightmost `i` with
/// `match_at(s, i)`, or -1 when the string does not have the dash-distance
/// shape at all.
pub open spec fn describe_split(s: Seq<char>) -> int {
    last_match(s, s.len() - 1)
}

/// The string has the `<tag>-<distance>-g<hex>` shape.
pub open spec fn describe_matched(s: Seq<char>) -> bool {
    describe_split(s) >= 0
}

/// The most recent tag encoded in the description string: the part before
/// the split, or the whole string when there is no split.
pub open spec fn parsed_tag(s: Seq<char>) -> Seq<char> {
    if describe_matched(s) {
        s.take(describe_split(s))
    } else {
        s
    }
}

/// The distance encoded in the description string: the digit run after the
/// split, or `"0"` when there is no split (the commit is exactly on a tag).
pub open spec fn parsed_distance(s: Seq<char>) -> Seq<char> {
    if describe_matched(s) {
        let i = describe_split(s);
        s.subrange(i + 1, digit_run_end(s, i + 1))
    } else {
        "0"@
    }
}

proof fn lemma_last_match_is_match(s: Seq<char>, i: int)
    requires
        i >= -1,
        last_match(s, i) >= 0,
    ensures
        match_at(s, last_match(s, i)),
    decreases i + 1,
{
    if i >= 0 && !match_at(s, i) {
        lemma_last_match_is_match(s, i - 1);
    }
}

/// When a description string has the dash-distance shape, the distance the
/// parse extracts is a nonempty string of decimal digits.
pub proof fn lemma_parsed_distance_digits(s: Seq<char>)
    requires
        describe_matched(s),
    ensures
        parsed_distance(s).len() > 0,
        forall|j: int| 0 <= j < parsed_distance(s).len() ==> is_digit(#[trigger] parsed_distance(
            s,
        )[j]),
{
    let i = describe_split(s);
    lemma_last_match_is_match(s, s.len() - 1);
    lemma_digit_run_end(s, i + 1);
}

/// If `i` is a split position and nothing above `i` up to `t` is one, then
/// `i` is the rightmost split at or below `t`; with `i == -1`, no split at
/// or below `t` exists at all.
proof fn lemma_last_match_pinned(s: Seq<char>, i: int, t: int)
    requires
        -1 <= i <= t,
        i >= 0 ==> match_at(s, i),
        forall|j: int| i < j <= t ==> !match_at(s, j),
    ensures
        last_match(s, t) == i,
    decreases t - i,
{
    if t > i {
        lemma_last_match_pinned(s, i, t - 1);
    }
}

fn digit_run_end_exec(s: &str, k: usize, n: usize) -> (r: usize)
    requires
        n == s@.len(),
        k <= n,
    ensures
        r as int == digit_run_end(s@, k as int),
        k <= r <= n,
    decreases n - k,
{
    if k < n {
        let c = s.get_char(k);
        if '0' <= c && c <= '9' {
            return digit_run_end_exec(s, k + 1, n);
        }
        proof {
            assert(!is_digit(s@[k as int]));
        }
        k
    } else {
        k
    }
}

fn check_match_at(s: &str, i: usize, n: usize) -> (b: bool)
    requires
        n == s@.len(),
        i < n,
    ensures
        b == match_at(s@, i as int),
{
    if s.get_char(i) != '-' {
        return false;
    }
    let k = digit_run_end_exec(s, i + 1, n);
    if k <= i + 1 {
        return false;
    }
    if k >= n || k + 1 >= n || k + 2 >= n {
        return false;
    }
    if s.get_char(k) != '-' {
        return false;
    }
    if s.get_char(k + 1) != 'g' {
        return false;
    }
    let mut j = k + 2;
    while j < n
        invariant
            k + 2 <= j <= n,
            n == s@.len(),
            i < n,
            k as int == digit_run_end(s@, i as int + 1),
            forall|m: int| k + 2 <= m < j ==> is_hex_lower(s@[m]),
        decreases n - j,
    {
        let c = s.get_char(j);
        if !(('0' <= c && c <= '9') || ('a' <= c && c <= 'f')) {
            proof {
                assert(!is_hex_lower(s@[j as int]));
            }
            return false;
        }
        j += 1;
    }
    true
}

/// The split position and the end of its digit run, if the string has the
/// `<tag>-<distance>-g<hex>` shape.
fn find_split(s: &str) -> (r: Option<(usize, usize)>)
    ensures
        match r {
            Some(ik) => {
                &&& describe_split(s@) == ik.0
                &&& match_at(s@, ik.0 as int)
                &&& ik.1 as int == digit_run_end(s@, ik.0 + 1)
            },
            None => describe_split(s@) == -1,
        },
{
    let n = s.unicode_len();
    let mut i = n;
    while i > 0
        invariant
            i <= n,
            n == s@.len(),
            forall|j: int| i <= j < n ==> !match_at(s@, j),
        decreases i,
    {
        i -= 1;
        if check_match_at(s, i, n) {
            proof {
                lemma_last_match_pinned(s@, i as int, n as int - 1);
            }
            let k = digit_run_end_exec(s, i + 1, n);
            return Some((i, k));
        }
    }
    proof {
        lemma_last_match_pinned(s@, -1, n as int - 1);
    }
    None
}

/// Parse a description string into the most recent tag, the distance, and
/// whether the commit sits exactly on the tag (no `-N-gHEX` suffix).
pub fn parse_tag_distance(s: &str) -> (r: (String, String, bool))
    ensures
        r.0@ == parsed_tag(s@),
        r.1@ == parsed_distance(s@),
        r.2 == !describe_matched(s@),
{
    match find_split(s) {
        Some((i, k)) => {
            let n = s.unicode_len();
            proof {
                lemma_digit_run_end(s@, i as int + 1);
                assert(s@.take(i as int) == s@.subrange(0, i as int));
            }
            let tag = s.substring_char(0, i).to_owned();
            let dist = s.substring_char(i + 1, k).to_owned();
            (tag, dist, false)
        },
        None => (s.to_owned(), String::from_str("0"), true),
    }
}

} // verus!
