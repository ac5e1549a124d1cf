//! Character-level scanning used by the flow description parser: runs of
//! characters, whitespace trimming, searching, literal tags and decimal numbers.
use vstd::prelude::*;

verus! {

/// Unicode White_Space, the characters that `str::trim` removes.
pub open spec fn is_ws(c: char) -> bool {
    ||| ('\u{9}' <= c && c <= '\u{d}')
    ||| c == ' '
    ||| c == '\u{85}'
    ||| c == '\u{a0}'
    ||| c == '\u{1680}'
    ||| ('\u{2000}' <= c && c <= '\u{200a}')
    ||| c == '\u{2028}'
    ||| c == '\u{2029}'
    ||| c == '\u{202f}'
    ||| c == '\u{205f}'
    ||| c == '\u{3000}'
}

/// An ASCII decimal digit.
pub open spec fn is_digit(c: char) -> bool {
    '0' <= c && c <= '9'
}

/// The value of an ASCII decimal digit.
pub open spec fn digit_value(c: char) -> nat {
    (c as int - '0' as int) as nat
}

/// `n` is the length of the longest prefix of `s` whose characters all satisfy `p`.
pub open spec fn is_run_len(s: Seq<char>, p: spec_fn(char) -> bool, n: int) -> bool {
    &&& 0 <= n <= s.len()
    &&& forall|i: int| 0 <= i < n ==> #[trigger] p(s[i])
    &&& (n == s.len() || !p(s[n]))
}

/// The length of the longest prefix of `s` whose characters all satisfy `p`.
pub open spec fn run_len(s: Seq<char>, p: spec_fn(char) -> bool) -> int {
    choose|n: int| is_run_len(s, p, n)
}

/// `n` is the length of the longest suffix of `s` whose characters all satisfy `p`.
pub open spec fn is_tail_run_len(s: Seq<char>, p: spec_fn(char) -> bool, n: int) -> bool {
    &&& 0 <= n <= s.len()
    &&& forall|i: int| s.len() - n <= i < s.len() ==> #[trigger] p(s[i])
    &&& (n == s.len() || !p(s[s.len() - 1 - n]))
}

/// The length of the longest suffix of `s` whose characters all satisfy `p`.
pub open spec fn tail_run_len(s: Seq<char>, p: spec_fn(char) -> bool) -> int {
    choose|n: int| is_tail_run_len(s, p, n)
}

/// A run length that `n` satisfies is the run length.
pub proof fn lemma_run_len_unique(s: Seq<char>, p: spec_fn(char) -> bool, n: int)
    requires
        is_run_len(s, p, n),
    ensures
        run_len(s, p) == n,
{
    let m = run_len(s, p);
    assert(is_run_len(s, p, m));
    if m < n {
        assert(p(s[m]));
    } else if n < m {
        assert(p(s[n]));
    }
}

/// A suffix run length that `n` satisfies is the suffix run length.
pub proof fn lemma_tail_run_len_unique(s: Seq<char>, p: spec_fn(char) -> bool, n: int)
    requires
        is_tail_run_len(s, p, n),
    ensures
        tail_run_len(s, p) == n,
{
    let m = tail_run_len(s, p);
    assert(is_tail_run_len(s, p, m));
    if m < n {
        assert(p(s[s.len() - 1 - m]));
    } else if n < m {
        assert(p(s[s.len() - 1 - n]));
    }
}

/// `s` without its leading and trailing whitespace, as `str::trim` gives it.
pub open spec fn trim(s: Seq<char>) -> Seq<char> {
    let lead = run_len(s, |c: char| is_ws(c));
    if lead == s.len() {
        Seq::empty()
    } else {
        s.subrange(lead, s.len() - tail_run_len(s, |c: char| is_ws(c)))
    }
}

/// `s` begins with `tag`.
pub open spec fn starts_with(s: Seq<char>, tag: Seq<char>) -> bool {
    tag.len() <= s.len() && s.subrange(0, tag.len() as int) =~= tag
}

/// `i` is the position of the first `c` in `s`.
pub open spec fn is_first(s: Seq<char>, c: char, i: int) -> bool {
    &&& 0 <= i < s.len()
    &&& s[i] == c
    &&& forall|j: int| 0 <= j < i ==> s[j] != c
}

/// The position of the first `c` in `s`, if there is one.
pub open spec fn find(s: Seq<char>, c: char) -> Option<int> {
    if exists|i: int| 0 <= i < s.len() && s[i] == c {
        Some(choose|i: int| is_first(s, c, i))
    } else {
        None
    }
}

/// The first position of `c` is the one that `find` gives.
pub proof fn lemma_find_first(s: Seq<char>, c: char, i: int)
    requires
        is_first(s, c, i),
    ensures
        find(s, c) == Some(i),
{
    assert(0 <= i < s.len() && s[i] == c);
    let j = choose|j: int| is_first(s, c, j);
    assert(is_first(s, c, j));
    if j < i {
        assert(s[j] != c);
    } else if i < j {
        assert(s[i] != c);
    }
}

/// The value of a string of decimal digits, most significant first.
pub open spec fn decimal_value(d: Seq<char>) -> nat
    decreases d.len(),
{
    if d.len() == 0 {
        0
    } else {
        decimal_value(d.drop_last()) * 10 + digit_value(d.last())
    }
}

/// Every character of `s` is a decimal digit.
pub open spec fn all_digits(s: Seq<char>) -> bool {
    forall|i: int| 0 <= i < s.len() ==> is_digit(#[trigger] s[i])
}

/// Whether `c` is whitespace in the sense of `char::is_whitespace`.
pub fn is_whitespace(c: char) -> (r: bool)
    ensures
        r == is_ws(c),
{
    ('\u{9}' <= c && c <= '\u{d}') || c == ' ' || c == '\u{85}' || c == '\u{a0}' || c == '\u{1680}'
        || ('\u{2000}' <= c && c <= '\u{200a}') || c == '\u{2028}' || c == '\u{2029}' || c
        == '\u{202f}' || c == '\u{205f}' || c == '\u{3000}'
}

/// Bounds of `s` without its leading and trailing whitespace.
pub fn trim_bounds(s: &[char]) -> (r: (usize, usize))
    ensures
        r.0 <= r.1 <= s@.len(),
        s@.subrange(r.0 as int, r.1 as int) == trim(s@),
{
    let ghost ws = |c: char| is_ws(c);
    let n = s.len();
    let mut lo: usize = 0;
    while lo < n && is_whitespace(s[lo])
        invariant
            lo <= n,
            n == s@.len(),
            ws == (|c: char| is_ws(c)),
            forall|i: int| 0 <= i < lo ==> #[trigger] ws(s@[i]),
        decreases n - lo,
    {
        assert(ws(s@[lo as int]));
        lo = lo + 1;
    }
    proof {
        lemma_run_len_unique(s@, ws, lo as int);
    }
    if lo == n {
        return (n, n);
    }
    let mut hi: usize = n;
    while hi > lo && is_whitespace(s[hi - 1])
        invariant
            lo < n,
            lo <= hi <= n,
            n == s@.len(),
            ws == (|c: char| is_ws(c)),
            !ws(s@[lo as int]),
            forall|i: int| hi <= i < n ==> #[trigger] ws(s@[i]),
        decreases hi,
    {
        assert(ws(s@[hi - 1]));
        hi = hi - 1;
    }
    proof {
        assert(hi > lo);
        lemma_tail_run_len_unique(s@, ws, (n - hi) as int);
    }
    (lo, hi)
}

/// Whether `s` begins with `tag`.
pub fn starts_with_tag(s: &[char], tag: &[char]) -> (r: bool)
    ensures
        r == starts_with(s@, tag@),
{
    if tag.len() > s.len() {
        return false;
    }
    let mut i: usize = 0;
    while i < tag.len()
        invariant
            i <= tag@.len() <= s@.len(),
            forall|j: int| 0 <= j < i ==> s@[j] == tag@[j],
        decreases tag@.len() - i,
    {
        if s[i] != tag[i] {
            assert(s@.subrange(0, tag@.len() as int)[i as int] != tag@[i as int]);
            return false;
        }
        i = i + 1;
    }
    assert(s@.subrange(0, tag@.len() as int) =~= tag@);
    true
}

/// The position of the first `c` in `s`, if there is one.
pub fn find_char(s: &[char], c: char) -> (r: Option<usize>)
    ensures
        r matches Some(i) ==> find(s@, c) == Some(i as int) && is_first(s@, c, i as int),
        r is None ==> find(s@, c) is None,
{
    let mut i: usize = 0;
    while i < s.len()
        invariant
            i <= s@.len(),
            forall|j: int| 0 <= j < i ==> s@[j] != c,
        decreases s@.len() - i,
    {
        if s[i] == c {
            proof {
                lemma_find_first(s@, c, i as int);
            }
            return Some(i);
        }
        i = i + 1;
    }
    None
}

/// The number of leading decimal digits of `s`.
pub fn digit_run(s: &[char]) -> (r: usize)
    ensures
        r == run_len(s@, |c: char| is_digit(c)),
        is_run_len(s@, |c: char| is_digit(c), r as int),
        r <= s@.len(),
        all_digits(s@.subrange(0, r as int)),
        r < s@.len() ==> !is_digit(s@[r as int]),
{
    let ghost dig = |c: char| is_digit(c);
    let mut i: usize = 0;
    while i < s.len() && '0' <= s[i] && s[i] <= '9'
        invariant
            i <= s@.len(),
            dig == (|c: char| is_digit(c)),
            forall|j: int| 0 <= j < i ==> #[trigger] dig(s@[j]),
            forall|j: int| 0 <= j < i ==> is_digit(#[trigger] s@[j]),
        decreases s@.len() - i,
    {
        assert(dig(s@[i as int]));
        i = i + 1;
    }
    assert(all_digits(s@.subrange(0, i as int))) by {
        assert forall|j: int| 0 <= j < i implies is_digit(#[trigger] s@.subrange(0, i as int)[j]) by {
            assert(s@.subrange(0, i as int)[j] == s@[j]);
        }
    }
    proof {
        lemma_run_len_unique(s@, dig, i as int);
    }
    i
}

/// The value of the decimal digits `s` if there is at least one, all are
/// digits and the value is at most `max`.
pub fn parse_decimal(s: &[char], max: u64) -> (r: Option<u64>)
    requires
        max <= 0xffff_ffff,
    ensures
        r is Some <==> (s@.len() > 0 && all_digits(s@) && decimal_value(s@) <= max),
        r matches Some(v) ==> v == decimal_value(s@),
{
    if s.len() == 0 {
        return None;
    }
    let mut acc: u64 = 0;
    let mut i: usize = 0;
    while i < s.len()
        invariant
            i <= s@.len(),
            max <= 0xffff_ffff,
            all_digits(s@.subrange(0, i as int)),
            decimal_value(s@.subrange(0, i as int)) <= max ==> acc == decimal_value(
                s@.subrange(0, i as int),
            ),
            decimal_value(s@.subrange(0, i as int)) > max ==> acc > max,
            acc <= 10 * max + 9,
        decreases s@.len() - i,
    {
        let c = s[i];
        if !('0' <= c && c <= '9') {
            assert(!is_digit(s@[i as int]));
            return None;
        }
        let d = (c as u32 - '0' as u32) as u64;
        let ghost prev = s@.subrange(0, i as int);
        let ghost next = s@.subrange(0, i + 1);
        assert(next.drop_last() =~= prev);
        assert(next.last() == c);
        assert(decimal_value(next) == decimal_value(prev) * 10 + digit_value(c));
        assert(decimal_value(prev) * 10 + digit_value(c) >= decimal_value(prev)) by (nonlinear_arith);
        if acc <= max {
            assert(acc * 10 + d <= 10 * max + 9) by (nonlinear_arith)
                requires
                    acc <= max,
                    d <= 9,
            ;
            acc = acc * 10 + d;
        }
        i = i + 1;
        assert(all_digits(s@.subrange(0, i as int))) by {
            assert forall|j: int| 0 <= j < i implies is_digit(#[trigger] s@.subrange(0, i as int)[j]) by {
                if j < i - 1 {
                    assert(s@.subrange(0, i as int)[j] == prev[j]);
                }
            }
        }
    }
    assert(s@.subrange(0, s@.len() as int) =~= s@);
    if acc <= max {
        Some(acc)
    } else {
        None
    }
}

} // verus!
