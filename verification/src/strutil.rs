//! Small verified string primitives used throughout the crate: equality and
//! prefix tests, concatenation, the leading-`v` trim, and decimal parsing of
//! a distance string.

use vstd::prelude::*;
use vstd::string::StrSliceExecFns;
use vstd::string::StringExecFns;

verus! {

/// `s` with one leading literal 'v' removed, if present.
pub open spec fn ltrimv(s: Seq<char>) -> Seq<char> {
    if s.len() > 0 && s[0] == 'v' {
        s.subrange(1, s.len() as int)
    } else {
        s
    }
}

/// Trimming an already-trimmed string is a no-op.  This needs the proviso
/// that the string does not start with two 'v' characters: on `"vv1"` a
/// second trim removes the second 'v'.
pub proof fn lemma_ltrimv_idempotent(s: Seq<char>)
    requires
        !(s.len() >= 2 && s[0] == 'v' && s[1] == 'v'),
    ensures
        ltrimv(ltrimv(s)) == ltrimv(s),
{
    if s.len() > 0 && s[0] == 'v' {
        assert(ltrimv(s) == s.subrange(1, s.len() as int));
    }
}

/// One leading literal 'v' removed, if present.
pub fn ltrimv_str(s: &str) -> (r: String)
    ensures
        r@ == ltrimv(s@),
{
    let n = s.unicode_len();
    if n > 0 && s.get_char(0) == 'v' {
        s.substring_char(1, n).to_owned()
    } else {
        s.to_owned()
    }
}

/// Character-for-character string equality.
pub fn str_eq(a: &str, b: &str) -> (r: bool)
    ensures
        r == (a@ == b@),
{
    let n = a.unicode_len();
    if n != b.unicode_len() {
        return false;
    }
    let mut i: usize = 0;
    while i < n
        invariant
            i <= n,
            n == a@.len(),
            n == b@.len(),
            forall|j: int| 0 <= j < i ==> a@[j] == b@[j],
        decreases n - i,
    {
        if a.get_char(i) != b.get_char(i) {
            return false;
        }
        i += 1;
    }
    proof {
        assert(a@ =~= b@);
    }
    true
}

/// `p` is a prefix of `s`.
pub open spec fn has_prefix(s: Seq<char>, p: Seq<char>) -> bool {
    p.len() <= s.len() && s.subrange(0, p.len() as int) == p
}

/// Whether `s` starts with `p`.
pub fn str_starts_with(s: &str, p: &str) -> (r: bool)
    ensures
        r == has_prefix(s@, p@),
{
    let np = p.unicode_len();
    let ns = s.unicode_len();
    if np > ns {
        return false;
    }
    let mut i: usize = 0;
    while i < np
        invariant
            i <= np,
            np == p@.len(),
            ns == s@.len(),
            np <= ns,
            forall|j: int| 0 <= j < i ==> s@[j] == p@[j],
        decreases np - i,
    {
        if s.get_char(i) != p.get_char(i) {
            proof {
                if has_prefix(s@, p@) {
                    assert(s@.subrange(0, p@.len() as int)[i as int] == s@[i as int]);
                }
            }
            return false;
        }
        i += 1;
    }
    proof {
        assert(s@.subrange(0, p@.len() as int) =~= p@);
    }
    true
}

/// The two strings, concatenated.
pub fn concat2(a: &str, b: &str) -> (r: String)
    ensures
        r@ == a@ + b@,
{
    let mut r = a.to_owned();
    r.append(b);
    r
}

/// The three strings, concatenated.
pub fn concat3(a: &str, b: &str, c: &str) -> (r: String)
    ensures
        r@ == a@ + b@ + c@,
{
    let mut r = a.to_owned();
    r.append(b);
    r.append(c);
    r
}

/// The index of the last '/' in `s`, or -1 if there is none.
pub open spec fn last_slash(s: Seq<char>) -> int
    decreases s.len(),
{
    if s.len() == 0 {
        -1
    } else if s.last() == '/' {
        s.len() - 1
    } else {
        last_slash(s.drop_last())
    }
}

proof fn lemma_last_slash_bounds(s: Seq<char>)
    ensures
        -1 <= last_slash(s) < s.len(),
        s.len() > 0 && s.last() != '/' ==> last_slash(s) <= s.len() - 2,
    decreases s.len(),
{
    if s.len() > 0 && s.last() != '/' {
        lemma_last_slash_bounds(s.drop_last());
    }
}

proof fn lemma_last_slash_pinned(s: Seq<char>, i: int)
    requires
        -1 <= i < s.len(),
        i >= 0 ==> s[i] == '/',
        forall|j: int| i < j < s.len() ==> s[j] != '/',
    ensures
        last_slash(s) == i,
    decreases s.len(),
{
    if s.len() > 0 && s.last() != '/' {
        assert(forall|j: int| i < j < s.drop_last().len() ==> s.drop_last()[j] != '/');
        lemma_last_slash_pinned(s.drop_last(), i);
    }
}

/// The final path component of `s`, in the manner of a path's file name:
/// trailing separators are ignored, a final `.` component stands for the
/// directory before it, and a path ending in `..` (or consisting only of
/// separators and dots) has no file name.
pub open spec fn file_name_of(s: Seq<char>) -> Option<Seq<char>>
    decreases s.len() via file_name_of_decreases
{
    if s.len() == 0 {
        None
    } else if s.last() == '/' {
        file_name_of(s.drop_last())
    } else {
        let ls = last_slash(s);
        let chunk = s.subrange(ls + 1, s.len() as int);
        if chunk == "."@ {
            file_name_of(s.take(ls + 1))
        } else if chunk == ".."@ {
            None
        } else {
            Some(chunk)
        }
    }
}

#[via_fn]
proof fn file_name_of_decreases(s: Seq<char>) {
    lemma_last_slash_bounds(s);
}

fn find_last_slash(s: &str, n: usize) -> (r: Option<usize>)
    requires
        n == s@.len(),
    ensures
        match r {
            Some(i) => last_slash(s@) == i,
            None => last_slash(s@) == -1,
        },
{
    let mut i = n;
    while i > 0
        invariant
            i <= n,
            n == s@.len(),
            forall|j: int| i <= j < n ==> s@[j] != '/',
        decreases i,
    {
        i -= 1;
        if s.get_char(i) == '/' {
            proof {
                lemma_last_slash_pinned(s@, i as int);
            }
            return Some(i);
        }
    }
    proof {
        lemma_last_slash_pinned(s@, -1);
    }
    None
}

/// The final path component of `s`, per `file_name_of`.
pub fn file_name(s: &str) -> (r: Option<String>)
    ensures
        match (r, file_name_of(s@)) {
            (Some(a), Some(b)) => a@ == b,
            (None, None) => true,
            _ => false,
        },
    decreases s@.len(),
{
    let n = s.unicode_len();
    if n == 0 {
        return None;
    }
    if s.get_char(n - 1) == '/' {
        return file_name(s.substring_char(0, n - 1));
    }
    proof {
        lemma_last_slash_bounds(s@);
    }
    let start = match find_last_slash(s, n) {
        Some(i) => i + 1,
        None => 0,
    };
    proof {
        assert(start as int == last_slash(s@) + 1);
        assert(start < n);
    }
    let chunk = s.substring_char(start, n);
    if str_eq(chunk, ".") {
        return file_name(s.substring_char(0, start));
    }
    if str_eq(chunk, "..") {
        return None;
    }
    Some(chunk.to_owned())
}

/// `c` is an ASCII decimal digit.
pub open spec fn is_digit(c: char) -> bool {
    '0' <= c && c <= '9'
}

/// The numeric value of a digit character.
pub open spec fn digit_val(c: char) -> int {
    c as int - '0' as int
}

/// Every character of `s` is a decimal digit.
pub open spec fn all_digits(s: Seq<char>) -> bool {
    forall|i: int| 0 <= i < s.len() ==> is_digit(s[i])
}

/// The value of a digit string read as a decimal number.
pub open spec fn digits_val(s: Seq<char>) -> int
    decreases s.len(),
{
    if s.len() == 0 {
        0
    } else {
        digits_val(s.drop_last()) * 10 + digit_val(s.last())
    }
}

/// The value of a digit string is at least the value of any of its prefixes.
proof fn lemma_digits_val_prefix(s: Seq<char>, i: int)
    requires
        0 <= i <= s.len(),
        all_digits(s),
    ensures
        digits_val(s.take(i)) <= digits_val(s),
        digits_val(s) >= 0,
    decreases s.len(),
{
    if s.len() == 0 {
    } else {
        lemma_digits_val_prefix(s.drop_last(), if i < s.len() { i } else { i - 1 });
        if i < s.len() {
            assert(s.take(i) == s.drop_last().take(i));
        } else {
            assert(s.take(i) == s);
        }
        assert(is_digit(s.last()));
    }
}

/// The string parses as a `u32` greater than zero: nonempty, all digits, and
/// within range.
pub open spec fn parses_positive(s: Seq<char>) -> bool {
    s.len() > 0 && all_digits(s) && digits_val(s) <= u32::MAX && digits_val(s) > 0
}

/// Whether `s` is the decimal representation of a positive number that fits
/// in a `u32`.  This is the test the evaluation engine applies to the
/// distance string.
pub fn is_positive_distance(s: &str) -> (r: bool)
    ensures
        r == parses_positive(s@),
{
    let n = s.unicode_len();
    if n == 0 {
        return false;
    }
    let mut val: u32 = 0;
    let mut i: usize = 0;
    while i < n
        invariant
            i <= n,
            n == s@.len(),
            n > 0,
            forall|j: int| 0 <= j < i ==> is_digit(s@[j]),
            val == digits_val(s@.take(i as int)),
        decreases n - i,
    {
        let c = s.get_char(i);
        let u = c as u32;
        if u < 48 || u > 57 {
            assert(!is_digit(s@[i as int]));
            return false;
        }
        let d: u32 = u - 48;
        proof {
            assert(is_digit(s@[i as int]));
            assert(d == digit_val(s@[i as int]));
        }
        if val > (u32::MAX - d) / 10 {
            proof {
                let t = s@.take(i + 1);
                assert(t.drop_last() == s@.take(i as int));
                assert(t.last() == s@[i as int]);
                assert(digits_val(t) == val * 10 + d);
                assert(val * 10 + d > u32::MAX) by (nonlinear_arith)
                    requires
                        val > (u32::MAX - d) / 10,
                        d <= 9,
                ;
                if all_digits(s@) {
                    lemma_digits_val_prefix(s@, i + 1);
                }
            }
            return false;
        }
        proof {
            assert(val * 10 + d <= u32::MAX) by (nonlinear_arith)
                requires
                    val <= (u32::MAX - d) / 10,
                    d <= 9,
            ;
            let t = s@.take(i + 1);
            assert(t.drop_last() == s@.take(i as int));
            assert(t.last() == s@[i as int]);
        }
        val = val * 10 + d;
        i += 1;
    }
    proof {
        assert(s@.take(n as int) == s@);
    }
    val > 0
}

} // verus!
