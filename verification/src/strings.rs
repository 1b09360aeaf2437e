//! Verified helpers over `&str` and `Seq<char>`: prefix, suffix and
//! equality tests, first-occurrence search, replacement, and trimming.

use vstd::prelude::*;
use vstd::string::StrSliceExecFns;
use vstd::string::StringExecFns;

verus! {

/// `s` starts with `prefix`.
pub open spec fn spec_starts_with(s: Seq<char>, prefix: Seq<char>) -> bool {
    prefix.len() <= s.len() && s.take(prefix.len() as int) == prefix
}

/// `s` ends with `suffix`.
pub open spec fn spec_ends_with(s: Seq<char>, suffix: Seq<char>) -> bool {
    suffix.len() <= s.len() && s.skip(s.len() - suffix.len()) == suffix
}

/// Index of the first occurrence of `c` in `s`, or `-1` if absent.
pub open spec fn spec_index_of_char(s: Seq<char>, c: char) -> int
    decreases s.len(),
{
    if s.len() == 0 {
        -1
    } else if s[0] == c {
        0
    } else {
        let r = spec_index_of_char(s.skip(1), c);
        if r < 0 {
            -1
        } else {
            r + 1
        }
    }
}

/// Index of the first occurrence of `pat` in `s`, or `-1` if absent.
pub open spec fn spec_find(s: Seq<char>, pat: Seq<char>) -> int
    decreases s.len(),
{
    if pat.len() > s.len() {
        -1
    } else if s.take(pat.len() as int) == pat {
        0
    } else if s.len() == 0 {
        -1
    } else {
        let r = spec_find(s.skip(1), pat);
        if r < 0 {
            -1
        } else {
            r + 1
        }
    }
}

/// `s` with every non-overlapping occurrence of `pat` replaced by `rep`,
/// scanning left to right.
pub open spec fn spec_replace(s: Seq<char>, pat: Seq<char>, rep: Seq<char>) -> Seq<char>
    decreases s.len(),
{
    if pat.len() <= 0 || pat.len() > s.len() {
        s
    } else if s.take(pat.len() as int) == pat {
        rep + spec_replace(s.skip(pat.len() as int), pat, rep)
    } else {
        seq![s[0]] + spec_replace(s.skip(1), pat, rep)
    }
}

/// `s` with every trailing `c` removed.
pub open spec fn spec_trim_trailing(s: Seq<char>, c: char) -> Seq<char>
    decreases s.len(),
{
    if s.len() > 0 && s[s.len() - 1] == c {
        spec_trim_trailing(s.take(s.len() - 1), c)
    } else {
        s
    }
}

/// The character's code, with an ASCII capital letter folded to its
/// lower-case code.
pub open spec fn spec_lower_code(c: char) -> int {
    if 'A' <= c && c <= 'Z' {
        c as u32 + 32
    } else {
        c as u32 as int
    }
}

/// The two strings are equal up to ASCII case.
pub open spec fn spec_eq_ignore_ascii_case(a: Seq<char>, b: Seq<char>) -> bool {
    a.len() == b.len() && forall|i: int|
        0 <= i < a.len() ==> spec_lower_code(a[i]) == spec_lower_code(b[i])
}

/// The character for one decimal digit.
pub open spec fn spec_digit_seq(d: int) -> Seq<char> {
    if d == 0 {
        "0"@
    } else if d == 1 {
        "1"@
    } else if d == 2 {
        "2"@
    } else if d == 3 {
        "3"@
    } else if d == 4 {
        "4"@
    } else if d == 5 {
        "5"@
    } else if d == 6 {
        "6"@
    } else if d == 7 {
        "7"@
    } else if d == 8 {
        "8"@
    } else {
        "9"@
    }
}

/// The decimal notation of a nonnegative number, without leading zeros.
pub open spec fn spec_decimal(n: int) -> Seq<char>
    decreases n,
{
    if n < 10 {
        spec_digit_seq(n)
    } else {
        spec_decimal(n / 10) + spec_digit_seq(n % 10)
    }
}

/// The digit character for a value below ten.
fn digit_str(d: u16) -> (r: &'static str)
    requires
        d < 10,
    ensures
        r@ == spec_digit_seq(d as int),
{
    if d == 0 {
        "0"
    } else if d == 1 {
        "1"
    } else if d == 2 {
        "2"
    } else if d == 3 {
        "3"
    } else if d == 4 {
        "4"
    } else if d == 5 {
        "5"
    } else if d == 6 {
        "6"
    } else if d == 7 {
        "7"
    } else if d == 8 {
        "8"
    } else {
        "9"
    }
}

/// The decimal notation of a port number or other small count.
pub fn u16_decimal(n: u16) -> (r: String)
    ensures
        r@ == spec_decimal(n as int),
    decreases n,
{
    if n < 10 {
        return digit_str(n).to_owned();
    }
    let mut r = u16_decimal(n / 10);
    r.append(digit_str(n % 10));
    r
}

/// If `c` occurs nowhere in `s`, the search reports `-1`.
pub proof fn lemma_index_of_char_absent(s: Seq<char>, c: char)
    requires
        forall|i: int| 0 <= i < s.len() ==> s[i] != c,
    ensures
        spec_index_of_char(s, c) == -1,
    decreases s.len(),
{
    if s.len() > 0 {
        assert(forall|i: int| 0 <= i < s.skip(1).len() ==> s.skip(1)[i] != c);
        lemma_index_of_char_absent(s.skip(1), c);
    }
}

/// A found pattern lies wholly inside the string.
pub proof fn lemma_spec_find_in_bounds(s: Seq<char>, pat: Seq<char>)
    ensures
        spec_find(s, pat) < 0 || spec_find(s, pat) + pat.len() <= s.len(),
    decreases s.len(),
{
    if pat.len() <= s.len() && s.take(pat.len() as int) != pat && s.len() > 0 {
        lemma_spec_find_in_bounds(s.skip(1), pat);
    }
}

/// A single differing position refutes a suffix match.
pub proof fn lemma_not_ends_with(s: Seq<char>, suffix: Seq<char>, k: int)
    requires
        suffix.len() <= s.len(),
        0 <= k < suffix.len(),
        s[s.len() - suffix.len() + k] != suffix[k],
    ensures
        !spec_ends_with(s, suffix),
{
    if spec_ends_with(s, suffix) {
        assert(s.skip(s.len() - suffix.len())[k] == s[s.len() - suffix.len() + k]);
    }
}

/// Whether the two strings hold the same characters.
pub fn str_eq(a: &str, b: &str) -> (r: bool)
    ensures
        r == (a@ == b@),
{
    let n = a.unicode_len();
    let m = b.unicode_len();
    if n != m {
        return false;
    }
    let mut i: usize = 0;
    while i < n
        invariant
            i <= n,
            n == a@.len(),
            n == b@.len(),
            forall|j: int| 0 <= j < i ==> a@[j] == b@[j],
        decreases n - i,
    {
        if a.get_char(i) != b.get_char(i) {
            return false;
        }
        i += 1;
    }
    proof {
        assert(a@ =~= b@);
    }
    true
}

/// Whether `s` starts with `prefix`.
pub fn str_starts_with(s: &str, prefix: &str) -> (r: bool)
    ensures
        r == spec_starts_with(s@, prefix@),
{
    let n = s.unicode_len();
    let m = prefix.unicode_len();
    if m > n {
        return false;
    }
    let mut i: usize = 0;
    while i < m
        invariant
            i <= m,
            m <= n,
            n == s@.len(),
            m == prefix@.len(),
            forall|j: int| 0 <= j < i ==> s@[j] == prefix@[j],
        decreases m - i,
    {
        if s.get_char(i) != prefix.get_char(i) {
            proof {
                if spec_starts_with(s@, prefix@) {
                    assert(s@.take(prefix@.len() as int)[i as int] == s@[i as int]);
                }
            }
            return false;
        }
        i += 1;
    }
    proof {
        assert(s@.take(prefix@.len() as int) =~= prefix@);
    }
    true
}

/// Whether `s` ends with `suffix`.
pub fn str_ends_with(s: &str, suffix: &str) -> (r: bool)
    ensures
        r == spec_ends_with(s@, suffix@),
{
    let n = s.unicode_len();
    let m = suffix.unicode_len();
    if m > n {
        return false;
    }
    let k = n - m;
    let mut i: usize = 0;
    while i < m
        invariant
            i <= m,
            m <= n,
            k == n - m,
            n == s@.len(),
            m == suffix@.len(),
            forall|j: int| 0 <= j < i ==> s@[k + j] == suffix@[j],
        decreases m - i,
    {
        if s.get_char(k + i) != suffix.get_char(i) {
            proof {
                lemma_not_ends_with(s@, suffix@, i as int);
            }
            return false;
        }
        i += 1;
    }
    proof {
        assert(s@.skip(s@.len() - suffix@.len()) =~= suffix@);
    }
    true
}

/// Whether the strings are equal up to ASCII case.
pub fn str_eq_ignore_ascii_case(a: &str, b: &str) -> (r: bool)
    ensures
        r == spec_eq_ignore_ascii_case(a@, b@),
{
    let n = a.unicode_len();
    let m = b.unicode_len();
    if n != m {
        return false;
    }
    let mut i: usize = 0;
    while i < n
        invariant
            i <= n,
            n == a@.len(),
            n == b@.len(),
            forall|j: int| 0 <= j < i ==> spec_lower_code(a@[j]) == spec_lower_code(b@[j]),
        decreases n - i,
    {
        let ca = a.get_char(i);
        let cb = b.get_char(i);
        let la: u32 = if 'A' <= ca && ca <= 'Z' {
            ca as u32 + 32
        } else {
            ca as u32
        };
        let lb: u32 = if 'A' <= cb && cb <= 'Z' {
            cb as u32 + 32
        } else {
            cb as u32
        };
        if la != lb {
            return false;
        }
        i += 1;
    }
    true
}

/// Index of the first occurrence of `c` in `s`, if any.
pub fn find_char(s: &str, c: char) -> (r: Option<usize>)
    ensures
        r == if spec_index_of_char(s@, c) < 0 {
            None::<usize>
        } else {
            Some(spec_index_of_char(s@, c) as usize)
        },
        s@.len() <= usize::MAX,
{
    let n = s.unicode_len();
    let mut i: usize = 0;
    proof {
        assert(s@.skip(0) =~= s@);
    }
    while i < n
        invariant
            i <= n,
            n == s@.len(),
            spec_index_of_char(s@, c) == ({
                let r = spec_index_of_char(s@.skip(i as int), c);
                if r < 0 {
                    -1int
                } else {
                    r + i
                }
            }),
        decreases n - i,
    {
        let ghost pre = s@.skip(i as int);
        if s.get_char(i) == c {
            proof {
                assert(pre[0] == s@[i as int]);
            }
            return Some(i);
        }
        proof {
            assert(pre[0] == s@[i as int]);
            assert(pre.skip(1) =~= s@.skip(i as int + 1));
        }
        i += 1;
    }
    proof {
        assert(s@.skip(n as int) =~= Seq::<char>::empty());
    }
    None
}

/// Whether `s` holds `pat` starting at position `at`.
fn match_at(s: &str, pat: &str, at: usize, n: usize, m: usize) -> (r: bool)
    requires
        n == s@.len(),
        m == pat@.len(),
        at + m <= n,
    ensures
        r == (s@.subrange(at as int, at as int + pat@.len() as int) == pat@),
{
    let mut j: usize = 0;
    while j < m
        invariant
            j <= m,
            n == s@.len(),
            m == pat@.len(),
            at + m <= n,
            forall|k: int| 0 <= k < j ==> s@[at + k] == pat@[k],
        decreases m - j,
    {
        if s.get_char(at + j) != pat.get_char(j) {
            proof {
                if s@.subrange(at as int, at as int + pat@.len() as int) == pat@ {
                    assert(s@.subrange(at as int, at as int + pat@.len() as int)[j as int]
                        == s@[at + j]);
                }
            }
            return false;
        }
        j += 1;
    }
    proof {
        assert(s@.subrange(at as int, at as int + pat@.len() as int) =~= pat@);
    }
    true
}

/// Index of the first occurrence of `pat` in `s`, if any.
pub fn find_sub(s: &str, pat: &str) -> (r: Option<usize>)
    requires
        pat@.len() >= 1,
    ensures
        r == if spec_find(s@, pat@) < 0 {
            None::<usize>
        } else {
            Some(spec_find(s@, pat@) as usize)
        },
{
    let n = s.unicode_len();
    let m = pat.unicode_len();
    if m > n {
        return None;
    }
    let mut i: usize = 0;
    proof {
        assert(s@.skip(0) =~= s@);
    }
    while i <= n - m
        invariant
            i <= n,
            m >= 1,
            m <= n,
            n == s@.len(),
            m == pat@.len(),
            spec_find(s@, pat@) == ({
                let r = spec_find(s@.skip(i as int), pat@);
                if r < 0 {
                    -1int
                } else {
                    r + i
                }
            }),
        decreases n - i,
    {
        let ghost pre = s@.skip(i as int);
        if match_at(s, pat, i, n, m) {
            proof {
                assert(pre.take(pat@.len() as int) =~= s@.subrange(
                    i as int,
                    i as int + pat@.len() as int,
                ));
                assert(spec_find(pre, pat@) == 0);
            }
            return Some(i);
        }
        proof {
            assert(pre.take(pat@.len() as int) =~= s@.subrange(
                i as int,
                i as int + pat@.len() as int,
            ));
            assert(pre.skip(1) =~= s@.skip(i as int + 1));
        }
        i += 1;
    }
    proof {
        assert(pat@.len() > s@.skip(i as int).len());
    }
    None
}

/// Whether `s` holds `pat` anywhere.
pub fn contains_sub(s: &str, pat: &str) -> (r: bool)
    requires
        pat@.len() >= 1,
    ensures
        r == (spec_find(s@, pat@) >= 0),
{
    match find_sub(s, pat) {
        Some(_) => true,
        None => false,
    }
}

/// `s` with every non-overlapping occurrence of `pat` replaced by `rep`,
/// scanning left to right.
pub fn replace_sub(s: &str, pat: &str, rep: &str) -> (r: String)
    requires
        pat@.len() >= 1,
    ensures
        r@ == spec_replace(s@, pat@, rep@),
{
    let n = s.unicode_len();
    let m = pat.unicode_len();
    let mut out = String::new();
    let mut seg: usize = 0;
    let mut i: usize = 0;
    proof {
        assert(s@.skip(0) =~= s@);
        assert(out@ + s@.subrange(0, 0) + spec_replace(s@, pat@, rep@) =~= spec_replace(
            s@,
            pat@,
            rep@,
        ));
    }
    if m > n {
        out.append(s.substring_char(0, n));
        proof {
            assert(out@ =~= spec_replace(s@, pat@, rep@));
        }
        return out;
    }
    while i <= n - m
        invariant
            m <= n,
            seg <= i <= n,
            m >= 1,
            n == s@.len(),
            m == pat@.len(),
            spec_replace(s@, pat@, rep@) == out@ + s@.subrange(seg as int, i as int)
                + spec_replace(s@.skip(i as int), pat@, rep@),
        decreases n - i,
    {
        let ghost pre = s@.skip(i as int);
        if match_at(s, pat, i, n, m) {
            proof {
                assert(pre.take(pat@.len() as int) =~= s@.subrange(
                    i as int,
                    i as int + pat@.len() as int,
                ));
                assert(pre.skip(pat@.len() as int) =~= s@.skip(i as int + pat@.len() as int));
            }
            out.append(s.substring_char(seg, i));
            out.append(rep);
            i += m;
            seg = i;
            proof {
                assert(spec_replace(s@, pat@, rep@) == out@ + s@.subrange(seg as int, i as int)
                    + spec_replace(s@.skip(i as int), pat@, rep@));
            }
        } else {
            proof {
                assert(pre.take(pat@.len() as int) =~= s@.subrange(
                    i as int,
                    i as int + pat@.len() as int,
                ));
                assert(pre.skip(1) =~= s@.skip(i as int + 1));
                assert(pre[0] == s@[i as int]);
                assert(s@.subrange(seg as int, i as int + 1) =~= s@.subrange(seg as int, i as int)
                    + seq![s@[i as int]]);
            }
            i += 1;
        }
    }
    out.append(s.substring_char(seg, n));
    proof {
        assert(pat@.len() > s@.skip(i as int).len());
        assert(spec_replace(s@.skip(i as int), pat@, rep@) == s@.skip(i as int));
        assert(s@.subrange(seg as int, n as int) =~= s@.subrange(seg as int, i as int) + s@.skip(
            i as int,
        ));
    }
    out
}

/// `s` with every trailing `c` removed.
pub fn trim_trailing<'a>(s: &'a str, c: char) -> (r: &'a str)
    ensures
        r@ == spec_trim_trailing(s@, c),
{
    let n = s.unicode_len();
    let mut j: usize = n;
    proof {
        assert(s@.take(n as int) =~= s@);
    }
    while j > 0 && s.get_char(j - 1) == c
        invariant
            j <= n,
            n == s@.len(),
            spec_trim_trailing(s@, c) == spec_trim_trailing(s@.take(j as int), c),
        decreases j,
    {
        proof {
            assert(s@.take(j as int)[j - 1] == s@[j - 1]);
            assert(s@.take(j as int).take(j - 1) =~= s@.take(j - 1));
        }
        j -= 1;
    }
    proof {
        if j > 0 {
            assert(s@.take(j as int)[j - 1] == s@[j - 1]);
        }
        assert(spec_trim_trailing(s@.take(j as int), c) == s@.take(j as int));
    }
    s.substring_char(0, j)
}

} // verus!
