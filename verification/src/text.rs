//! Character-level helpers shared by the parsers: character classes, whitespace
//! trimming, searching, decimal parsing and decimal rendering, each with the
//! spec functions that the parsers' contracts are written in.
use vstd::prelude::*;

verus! {

/// `char::is_whitespace`: the Unicode `White_Space` property.
pub open spec fn is_ws(c: char) -> bool {
    ||| ('\u{9}' <= c && c <= '\u{d}')
    ||| c == ' '
    ||| c == '\u{85}'
    ||| c == '\u{a0}'
    ||| c == '\u{1680}'
    ||| ('\u{2000}' <= c && c <= '\u{200a}')
    ||| c == '\u{2028}'
    ||| c == '\u{2029}'
    ||| c == '\u{202f}'
    ||| c == '\u{205f}'
    ||| c == '\u{3000}'
}

pub open spec fn is_digit(c: char) -> bool {
    '0' <= c && c <= '9'
}

pub open spec fn is_lower(c: char) -> bool {
    'a' <= c && c <= 'z'
}

pub open spec fn is_upper(c: char) -> bool {
    'A' <= c && c <= 'Z'
}

/// `char::is_ascii_alphanumeric`.
pub open spec fn is_alnum(c: char) -> bool {
    is_digit(c) || is_lower(c) || is_upper(c)
}

pub fn char_is_ws(c: char) -> (r: bool)
    ensures
        r == is_ws(c),
{
    ('\u{9}' <= c && c <= '\u{d}') || c == ' ' || c == '\u{85}' || c == '\u{a0}' || c
        == '\u{1680}' || ('\u{2000}' <= c && c <= '\u{200a}') || c == '\u{2028}' || c
        == '\u{2029}' || c == '\u{202f}' || c == '\u{205f}' || c == '\u{3000}'
}

pub fn char_is_digit(c: char) -> (r: bool)
    ensures
        r == is_digit(c),
{
    '0' <= c && c <= '9'
}

pub fn char_is_lower(c: char) -> (r: bool)
    ensures
        r == is_lower(c),
{
    'a' <= c && c <= 'z'
}

pub fn char_is_upper(c: char) -> (r: bool)
    ensures
        r == is_upper(c),
{
    'A' <= c && c <= 'Z'
}

pub fn char_is_alnum(c: char) -> (r: bool)
    ensures
        r == is_alnum(c),
{
    char_is_digit(c) || char_is_lower(c) || char_is_upper(c)
}

/// The characters of `s`, one by one.
pub fn chars_of(s: &str) -> (v: Vec<char>)
    ensures
        v@ == s@,
{
    let n = s.unicode_len();
    let mut v: Vec<char> = Vec::new();
    let mut i: usize = 0;
    while i < n
        invariant
            n == s@.len(),
            i <= n,
            v@ == s@.subrange(0, i as int),
        decreases n - i,
    {
        let c = s.get_char(i);
        v.push(c);
        i = i + 1;
        assert(v@ =~= s@.subrange(0, i as int));
    }
    assert(v@ =~= s@);
    v
}

/// The characters of `s` from `a` up to `b`, as a new string.
pub fn substring(s: &str, a: usize, b: usize) -> (r: String)
    requires
        a <= b <= s@.len(),
    ensures
        r@ == s@.subrange(a as int, b as int),
{
    let t = s.substring_char(a, b);
    String::from_str(t)
}

/// A new string holding `s`.
pub fn own(s: &str) -> (r: String)
    ensures
        r@ == s@,
{
    String::from_str(s)
}

/// `a` followed by `b`.
pub fn join2(a: &str, b: &str) -> (r: String)
    ensures
        r@ == a@ + b@,
{
    let mut r = String::from_str(a);
    r.append(b);
    r
}

/// `a`, `b` and `c` in a row.
pub fn join3(a: &str, b: &str, c: &str) -> (r: String)
    ensures
        r@ == a@ + b@ + c@,
{
    let mut r = String::from_str(a);
    r.append(b);
    r.append(c);
    r
}

// ---------------------------------------------------------------------------
// Trimming
// ---------------------------------------------------------------------------
/// Number of leading whitespace characters.
pub open spec fn lead_ws(s: Seq<char>) -> nat
    decreases s.len(),
{
    if s.len() > 0 && is_ws(s[0]) {
        1 + lead_ws(s.drop_first())
    } else {
        0
    }
}

/// Number of trailing whitespace characters.
pub open spec fn trail_ws(s: Seq<char>) -> nat
    decreases s.len(),
{
    if s.len() > 0 && is_ws(s.last()) {
        1 + trail_ws(s.drop_last())
    } else {
        0
    }
}

/// `str::trim`: the text without leading and trailing whitespace.
pub open spec fn trim(s: Seq<char>) -> Seq<char> {
    let f = s.skip(lead_ws(s) as int);
    f.take(f.len() - trail_ws(f))
}

/// `lead_ws` counts the whitespace at the start of the text, and no more.
pub proof fn lemma_lead_ws(s: Seq<char>)
    ensures
        lead_ws(s) <= s.len(),
        forall|i: int| 0 <= i < lead_ws(s) ==> is_ws(#[trigger] s[i]),
        lead_ws(s) < s.len() ==> !is_ws(s[lead_ws(s) as int]),
    decreases s.len(),
{
    if s.len() > 0 && is_ws(s[0]) {
        lemma_lead_ws(s.drop_first());
        assert forall|i: int| 0 <= i < lead_ws(s) implies is_ws(#[trigger] s[i]) by {
            if i > 0 {
                assert(s[i] == s.drop_first()[i - 1]);
            }
        }
    }
}

/// `trail_ws` counts the whitespace at the end of the text, and no more.
pub proof fn lemma_trail_ws(s: Seq<char>)
    ensures
        trail_ws(s) <= s.len(),
        forall|i: int| s.len() - trail_ws(s) <= i < s.len() ==> is_ws(#[trigger] s[i]),
        trail_ws(s) < s.len() ==> !is_ws(s[s.len() - trail_ws(s) - 1]),
    decreases s.len(),
{
    if s.len() > 0 && is_ws(s.last()) {
        lemma_trail_ws(s.drop_last());
        assert forall|i: int| s.len() - trail_ws(s) <= i < s.len() implies is_ws(
            #[trigger] s[i],
        ) by {
            if i < s.len() - 1 {
                assert(s[i] == s.drop_last()[i]);
            }
        }
    }
}

/// A count of leading characters that are all whitespace, followed by one that is
/// not (or by the end), is the count that `lead_ws` gives.
pub proof fn lemma_lead_ws_unique(s: Seq<char>, k: int)
    requires
        0 <= k <= s.len(),
        forall|i: int| 0 <= i < k ==> is_ws(#[trigger] s[i]),
        k < s.len() ==> !is_ws(s[k]),
    ensures
        lead_ws(s) == k,
    decreases s.len(),
{
    if k > 0 {
        assert(is_ws(s[0]));
        let t = s.drop_first();
        assert forall|i: int| 0 <= i < k - 1 implies is_ws(#[trigger] t[i]) by {
            assert(t[i] == s[i + 1]);
        }
        if k - 1 < t.len() {
            assert(t[k - 1] == s[k]);
        }
        lemma_lead_ws_unique(t, k - 1);
    }
}

/// A count of trailing characters that are all whitespace, preceded by one that
/// is not (or by the start), is the count that `trail_ws` gives.
pub proof fn lemma_trail_ws_unique(s: Seq<char>, k: int)
    requires
        0 <= k <= s.len(),
        forall|i: int| s.len() - k <= i < s.len() ==> is_ws(#[trigger] s[i]),
        k < s.len() ==> !is_ws(s[s.len() - k - 1]),
    ensures
        trail_ws(s) == k,
    decreases s.len(),
{
    if k > 0 {
        assert(is_ws(s[s.len() - 1]));
        let t = s.drop_last();
        assert forall|i: int| t.len() - (k - 1) <= i < t.len() implies is_ws(#[trigger] t[i]) by {
            assert(t[i] == s[i]);
        }
        if k - 1 < t.len() {
            assert(t[t.len() - (k - 1) - 1] == s[s.len() - k - 1]);
        }
        lemma_trail_ws_unique(t, k - 1);
    }
}

/// Text without whitespace is its own trimmed text.
pub proof fn lemma_trim_plain(s: Seq<char>)
    requires
        forall|i: int| 0 <= i < s.len() ==> !is_ws(#[trigger] s[i]),
    ensures
        trim(s) == s,
{
    if s.len() > 0 {
        assert(!is_ws(s[0]));
        assert(!is_ws(s[s.len() - 1]));
    }
    lemma_lead_ws_unique(s, 0);
    assert(s.skip(0) =~= s);
    lemma_trail_ws_unique(s, 0);
    assert(s.take(s.len() as int) =~= s);
}

/// The bounds `(a, b)` of the trimmed text inside `v`.
pub fn trim_bounds(v: &Vec<char>) -> (r: (usize, usize))
    ensures
        r.0 <= r.1 <= v@.len(),
        v@.subrange(r.0 as int, r.1 as int) == trim(v@),
{
    let n = v.len();
    let mut a: usize = 0;
    while a < n && char_is_ws(v[a])
        invariant
            n == v@.len(),
            a <= n,
            forall|i: int| 0 <= i < a ==> is_ws(#[trigger] v@[i]),
        decreases n - a,
    {
        a = a + 1;
    }
    proof {
        lemma_lead_ws_unique(v@, a as int);
    }
    let mut b: usize = n;
    while b > a && char_is_ws(v[b - 1])
        invariant
            n == v@.len(),
            a <= b <= n,
            forall|i: int| b <= i < n ==> is_ws(#[trigger] v@[i]),
        decreases b - a,
    {
        b = b - 1;
    }
    proof {
        let f = v@.skip(a as int);
        let k = (n - b) as int;
        assert forall|i: int| f.len() - k <= i < f.len() implies is_ws(#[trigger] f[i]) by {
            assert(f[i] == v@[i + a]);
        }
        if k < f.len() {
            assert(f[f.len() - k - 1] == v@[b - 1]);
        }
        lemma_trail_ws_unique(f, k);
        assert(v@.subrange(a as int, b as int) =~= f.take(f.len() - k));
    }
    (a, b)
}

/// `str::trim` into a new string.
pub fn trimmed(s: &str) -> (r: String)
    ensures
        r@ == trim(s@),
{
    let v = chars_of(s);
    let (a, b) = trim_bounds(&v);
    substring(s, a, b)
}

// ---------------------------------------------------------------------------
// Searching
// ---------------------------------------------------------------------------
/// Index of the first `c` in `s`, if any.
pub open spec fn first_index(s: Seq<char>, c: char) -> Option<int> {
    if exists|i: int| 0 <= i < s.len() && s[i] == c {
        Some(choose|i: int| 0 <= i < s.len() && s[i] == c && forall|j: int| 0 <= j < i ==> s[j] != c)
    } else {
        None
    }
}

/// Index of the last `c` in `s`, if any.
pub open spec fn last_index(s: Seq<char>, c: char) -> Option<int> {
    if exists|i: int| 0 <= i < s.len() && s[i] == c {
        Some(
            choose|i: int|
                0 <= i < s.len() && s[i] == c && forall|j: int| i < j < s.len() ==> s[j] != c,
        )
    } else {
        None
    }
}

/// `str::find` for a single character, over `v[lo..hi]`; the index is into `v`.
pub fn find_char(v: &Vec<char>, lo: usize, hi: usize, c: char) -> (r: Option<usize>)
    requires
        lo <= hi <= v@.len(),
    ensures
        match r {
            Some(i) => lo <= i < hi && v@[i as int] == c && forall|j: int|
                lo <= j < i ==> v@[j] != c,
            None => forall|j: int| lo <= j < hi ==> v@[j] != c,
        },
{
    let mut i = lo;
    while i < hi
        invariant
            lo <= i <= hi <= v@.len(),
            forall|j: int| lo <= j < i ==> v@[j] != c,
        decreases hi - i,
    {
        if v[i] == c {
            return Some(i);
        }
        i = i + 1;
    }
    None
}

/// `str::rfind` for a single character, over `v[lo..hi]`; the index is into `v`.
pub fn rfind_char(v: &Vec<char>, lo: usize, hi: usize, c: char) -> (r: Option<usize>)
    requires
        lo <= hi <= v@.len(),
    ensures
        match r {
            Some(i) => lo <= i < hi && v@[i as int] == c && forall|j: int|
                i < j < hi ==> v@[j] != c,
            None => forall|j: int| lo <= j < hi ==> v@[j] != c,
        },
{
    let mut i = hi;
    while i > lo
        invariant
            lo <= i <= hi <= v@.len(),
            forall|j: int| i <= j < hi ==> v@[j] != c,
        decreases i - lo,
    {
        if v[i - 1] == c {
            return Some(i - 1);
        }
        i = i - 1;
    }
    None
}

/// An occurrence of `c` with none before it is the one `first_index` finds.
pub proof fn lemma_first_index(s: Seq<char>, c: char, k: int)
    requires
        0 <= k < s.len(),
        s[k] == c,
        forall|j: int| 0 <= j < k ==> s[j] != c,
    ensures
        first_index(s, c) == Some(k),
{
    let w = choose|i: int| 0 <= i < s.len() && s[i] == c && forall|j: int| 0 <= j < i ==> s[j] != c;
    assert(0 <= k < s.len() && s[k] == c && forall|j: int| 0 <= j < k ==> s[j] != c);
    if w < k {
        assert(s[w] != c);
    }
    if k < w {
        assert(s[k] != c);
    }
}

/// An occurrence of `c` with none after it is the one `last_index` finds.
pub proof fn lemma_last_index(s: Seq<char>, c: char, k: int)
    requires
        0 <= k < s.len(),
        s[k] == c,
        forall|j: int| k < j < s.len() ==> s[j] != c,
    ensures
        last_index(s, c) == Some(k),
{
    let w = choose|i: int|
        0 <= i < s.len() && s[i] == c && forall|j: int| i < j < s.len() ==> s[j] != c;
    assert(0 <= k < s.len() && s[k] == c && forall|j: int| k < j < s.len() ==> s[j] != c);
    if w < k {
        assert(s[k] != c);
    }
    if k < w {
        assert(s[w] != c);
    }
}

/// Where `c` occurs in `s`, `first_index` finds its first occurrence.
pub proof fn lemma_first_index_some(s: Seq<char>, c: char)
    requires
        exists|i: int| 0 <= i < s.len() && s[i] == c,
    ensures
        first_index(s, c) matches Some(k) && 0 <= k < s.len() && s[k] == c && forall|j: int|
            0 <= j < k ==> s[j] != c,
    decreases s.len(),
{
    if s[0] == c {
        lemma_first_index(s, c, 0);
    } else {
        let t = s.drop_first();
        let i = choose|i: int| 0 <= i < s.len() && s[i] == c;
        assert(t[i - 1] == c);
        lemma_first_index_some(t, c);
        let k = first_index(t, c)->0;
        assert forall|j: int| 0 <= j < k + 1 implies s[j] != c by {
            if j > 0 {
                assert(s[j] == t[j - 1]);
            }
        }
        lemma_first_index(s, c, k + 1);
    }
}

/// Where `c` occurs in `s`, `last_index` finds its last occurrence.
pub proof fn lemma_last_index_some(s: Seq<char>, c: char)
    requires
        exists|i: int| 0 <= i < s.len() && s[i] == c,
    ensures
        last_index(s, c) matches Some(k) && 0 <= k < s.len() && s[k] == c && forall|j: int|
            k < j < s.len() ==> s[j] != c,
    decreases s.len(),
{
    if s.last() == c {
        lemma_last_index(s, c, s.len() - 1);
    } else {
        let t = s.drop_last();
        let i = choose|i: int| 0 <= i < s.len() && s[i] == c;
        assert(t[i] == c);
        lemma_last_index_some(t, c);
        let k = last_index(t, c)->0;
        assert forall|j: int| k < j < s.len() implies s[j] != c by {
            if j < s.len() - 1 {
                assert(s[j] == t[j]);
            }
        }
        lemma_last_index(s, c, k);
    }
}

/// `first_index` over `v[lo..hi]`, as an index into `v`.
pub fn find_in(v: &Vec<char>, lo: usize, hi: usize, c: char) -> (r: Option<usize>)
    requires
        lo <= hi <= v@.len(),
    ensures
        match r {
            Some(i) => lo <= i < hi && first_index(v@.subrange(lo as int, hi as int), c) == Some(i - lo),
            None => first_index(v@.subrange(lo as int, hi as int), c) is None,
        },
{
    let ghost t = v@.subrange(lo as int, hi as int);
    let r = find_char(v, lo, hi, c);
    proof {
        match r {
            Some(i) => {
                assert forall|j: int| 0 <= j < i - lo implies t[j] != c by {
                    assert(t[j] == v@[lo + j]);
                }
                lemma_first_index(t, c, i - lo);
            },
            None => {
                assert(!exists|i: int| 0 <= i < t.len() && t[i] == c) by {
                    assert forall|i: int| 0 <= i < t.len() implies t[i] != c by {
                        assert(t[i] == v@[lo + i]);
                    }
                }
            },
        }
    }
    r
}

/// `last_index` over `v[lo..hi]`, as an index into `v`.
pub fn rfind_in(v: &Vec<char>, lo: usize, hi: usize, c: char) -> (r: Option<usize>)
    requires
        lo <= hi <= v@.len(),
    ensures
        match r {
            Some(i) => lo <= i < hi && last_index(v@.subrange(lo as int, hi as int), c) == Some(i - lo),
            None => last_index(v@.subrange(lo as int, hi as int), c) is None,
        },
{
    let ghost t = v@.subrange(lo as int, hi as int);
    let r = rfind_char(v, lo, hi, c);
    proof {
        match r {
            Some(i) => {
                assert forall|j: int| i - lo < j < t.len() implies t[j] != c by {
                    assert(t[j] == v@[lo + j]);
                }
                lemma_last_index(t, c, i - lo);
            },
            None => {
                assert(!exists|i: int| 0 <= i < t.len() && t[i] == c) by {
                    assert forall|i: int| 0 <= i < t.len() implies t[i] != c by {
                        assert(t[i] == v@[lo + i]);
                    }
                }
            },
        }
    }
    r
}

/// Whether `v[lo..hi]` holds `c`.
pub fn has_in(v: &Vec<char>, lo: usize, hi: usize, c: char) -> (r: bool)
    requires
        lo <= hi <= v@.len(),
    ensures
        r == v@.subrange(lo as int, hi as int).contains(c),
{
    let ghost t = v@.subrange(lo as int, hi as int);
    let r = find_char(v, lo, hi, c);
    match r {
        Some(i) => {
            assert(t[i - lo] == c);
            true
        },
        None => {
            assert forall|i: int| 0 <= i < t.len() implies t[i] != c by {
                assert(t[i] == v@[lo + i]);
            }
            false
        },
    }
}

/// `str::split` on a single character: the pieces between occurrences of `c`.
#[verifier::opaque]
pub open spec fn split_seq(s: Seq<char>, c: char) -> Seq<Seq<char>>
    decreases s.len(),
{
    match first_index(s, c) {
        Some(i) => if 0 <= i < s.len() {
            seq![s.take(i)] + split_seq(s.skip(i + 1), c)
        } else {
            seq![s]
        },
        None => seq![s],
    }
}

/// The texts that bounds `b` mark out in `v`.
pub open spec fn pieces(v: Seq<char>, b: Seq<(usize, usize)>) -> Seq<Seq<char>> {
    Seq::new(b.len(), |k: int| v.subrange(b[k].0 as int, b[k].1 as int))
}

proof fn lemma_pieces_push(v: Seq<char>, b: Seq<(usize, usize)>, x: (usize, usize))
    ensures
        pieces(v, b.push(x)) == pieces(v, b).push(v.subrange(x.0 as int, x.1 as int)),
{
    assert(pieces(v, b.push(x)) =~= pieces(v, b).push(v.subrange(x.0 as int, x.1 as int)));
}

/// Text `a` without the separator, then the separator, then `b`, splits into
/// `a` followed by the pieces of `b`.
pub proof fn lemma_split_joined(a: Seq<char>, c: char, b: Seq<char>)
    requires
        forall|i: int| 0 <= i < a.len() ==> a[i] != c,
    ensures
        split_seq(a + seq![c] + b, c) == seq![a] + split_seq(b, c),
{
    let s = a + seq![c] + b;
    assert(s[a.len() as int] == c);
    assert forall|j: int| 0 <= j < a.len() implies s[j] != c by {
        assert(s[j] == a[j]);
    }
    lemma_first_index(s, c, a.len() as int);
    lemma_split_found(s, c, a.len() as int);
    assert(s.take(a.len() as int) =~= a);
    assert(s.skip(a.len() as int + 1) =~= b);
}

proof fn lemma_split_found(rest: Seq<char>, c: char, k: int)
    requires
        0 <= k < rest.len(),
        first_index(rest, c) == Some(k),
    ensures
        split_seq(rest, c) == seq![rest.take(k)] + split_seq(rest.skip(k + 1), c),
{
    reveal(split_seq);
}

/// Text without the separator splits into itself alone.
pub proof fn lemma_split_none(rest: Seq<char>, c: char)
    requires
        first_index(rest, c) is None,
    ensures
        split_seq(rest, c) == seq![rest],
{
    reveal(split_seq);
}

/// The pieces of `v[lo..hi]` between occurrences of `c`, as `(start, end)` bounds into `v`.
#[verifier::spinoff_prover]
#[verifier::rlimit(40)]
pub fn split_bounds(v: &Vec<char>, lo: usize, hi: usize, c: char) -> (r: Vec<(usize, usize)>)
    requires
        lo <= hi <= v@.len(),
    ensures
        pieces(v@, r@) == split_seq(v@.subrange(lo as int, hi as int), c),
        forall|k: int| 0 <= k < r@.len() ==> lo <= (#[trigger] r@[k]).0 <= r@[k].1 <= hi,
{
    let mut out: Vec<(usize, usize)> = Vec::new();
    let mut start = lo;
    let ghost whole = split_seq(v@.subrange(lo as int, hi as int), c);
    assert(pieces(v@, out@) =~= Seq::<Seq<char>>::empty());
    loop
        invariant
            lo <= start <= hi <= v@.len(),
            whole == split_seq(v@.subrange(lo as int, hi as int), c),
            whole == pieces(v@, out@) + split_seq(v@.subrange(start as int, hi as int), c),
            forall|k: int| 0 <= k < out@.len() ==> lo <= (#[trigger] out@[k]).0 <= out@[k].1 <= hi,
        decreases hi - start,
    {
        let ghost rest = v@.subrange(start as int, hi as int);
        let ghost prev = out@;
        match find_in(v, start, hi, c) {
            Some(i) => {
                out.push((start, i));
                proof {
                    assert(rest.take(i - start) =~= v@.subrange(start as int, i as int));
                    assert(rest.skip(i - start + 1) =~= v@.subrange(i + 1, hi as int));
                    lemma_split_found(rest, c, i - start);
                    lemma_pieces_push(v@, prev, (start, i));
                    assert(whole =~= pieces(v@, out@) + split_seq(
                        v@.subrange(i + 1, hi as int),
                        c,
                    ));
                }
                start = i + 1;
            },
            None => {
                out.push((start, hi));
                proof {
                    lemma_split_none(rest, c);
                    lemma_pieces_push(v@, prev, (start, hi));
                    assert(whole =~= pieces(v@, out@));
                }
                return out;
            },
        }
    }
}

/// `needle` occurs in `hay` starting at `i`.
pub open spec fn occurs_at(hay: Seq<char>, needle: Seq<char>, i: int) -> bool {
    0 <= i && i + needle.len() <= hay.len() && hay.subrange(i, i + needle.len()) == needle
}

/// `str::contains` for a string pattern.
pub open spec fn contains(hay: Seq<char>, needle: Seq<char>) -> bool {
    exists|i: int| occurs_at(hay, needle, i)
}

fn matches_at(hay: &Vec<char>, needle: &Vec<char>, i: usize) -> (r: bool)
    requires
        i + needle@.len() <= hay@.len(),
    ensures
        r == (hay@.subrange(i as int, i + needle@.len()) == needle@),
{
    let mut k: usize = 0;
    while k < needle.len()
        invariant
            i + needle@.len() <= hay@.len(),
            i + needle.len() <= hay.len(),
            k <= needle@.len(),
            forall|j: int| 0 <= j < k ==> hay@[i + j] == needle@[j],
        decreases needle@.len() - k,
    {
        if hay[i + k] != needle[k] {
            assert(hay@.subrange(i as int, i + needle@.len())[k as int] != needle@[k as int]);
            return false;
        }
        k = k + 1;
    }
    assert(hay@.subrange(i as int, i + needle@.len()) =~= needle@);
    true
}

/// `hay.contains(needle)`.
pub fn str_contains(hay: &str, needle: &str) -> (r: bool)
    ensures
        r == contains(hay@, needle@),
{
    let h = chars_of(hay);
    let n = chars_of(needle);
    if n.len() > h.len() {
        assert forall|i: int| !occurs_at(hay@, needle@, i) by {}
        return false;
    }
    let last = h.len() - n.len();
    let mut i: usize = 0;
    while i <= last
        invariant
            h@ == hay@,
            n@ == needle@,
            last == h@.len() - n@.len(),
            forall|j: int| 0 <= j < i ==> !occurs_at(hay@, needle@, j),
        decreases last + 1 - i,
    {
        if i == last {
            if matches_at(&h, &n, i) {
                assert(occurs_at(hay@, needle@, i as int));
                return true;
            }
            assert forall|j: int| !occurs_at(hay@, needle@, j) by {
                if 0 <= j < i {
                }
            }
            return false;
        }
        if matches_at(&h, &n, i) {
            assert(occurs_at(hay@, needle@, i as int));
            return true;
        }
        i = i + 1;
    }
    assert forall|j: int| !occurs_at(hay@, needle@, j) by {
        if 0 <= j < i {
        }
    }
    false
}

/// `s.starts_with(p)`.
pub open spec fn starts_with(s: Seq<char>, p: Seq<char>) -> bool {
    p.len() <= s.len() && s.subrange(0, p.len() as int) == p
}

/// `s.ends_with(p)`.
pub open spec fn ends_with(s: Seq<char>, p: Seq<char>) -> bool {
    p.len() <= s.len() && s.subrange(s.len() - p.len(), s.len() as int) == p
}

pub fn vec_starts_with(v: &Vec<char>, p: &str) -> (r: bool)
    ensures
        r == starts_with(v@, p@),
{
    let pv = chars_of(p);
    if pv.len() > v.len() {
        return false;
    }
    matches_at(v, &pv, 0)
}

pub fn vec_ends_with(v: &Vec<char>, p: &str) -> (r: bool)
    ensures
        r == ends_with(v@, p@),
{
    let pv = chars_of(p);
    if pv.len() > v.len() {
        return false;
    }
    matches_at(v, &pv, v.len() - pv.len())
}

/// String equality on views.
pub fn str_eq(a: &str, b: &str) -> (r: bool)
    ensures
        r == (a@ == b@),
{
    let x = chars_of(a);
    let y = chars_of(b);
    if x.len() != y.len() {
        return false;
    }
    let r = matches_at(&x, &y, 0);
    assert(x@.subrange(0, y@.len() as int) =~= x@);
    r
}

/// Appends one character to `s` (`String::push`).
#[verifier::external_body]
pub(crate) fn push_char(s: &mut String, c: char)
    ensures
        final(s)@ == old(s)@.push(c),
{
    s.push(c);
}

/// `Path::join` of a relative component on Unix: a separator is put between
/// unless `base` is empty or already ends in one.
pub open spec fn join_path(base: Seq<char>, part: Seq<char>) -> Seq<char> {
    if base.len() > 0 && base.last() != '/' {
        base + "/"@ + part
    } else {
        base + part
    }
}

pub fn path_join(base: &str, part: &str) -> (r: String)
    ensures
        r@ == join_path(base@, part@),
{
    let v = chars_of(base);
    if v.len() > 0 && v[v.len() - 1] != '/' {
        let mut r = join2(base, "/");
        r.append(part);
        r
    } else {
        join2(base, part)
    }
}

// ---------------------------------------------------------------------------
// Case folding
// ---------------------------------------------------------------------------
/// `c` with an ASCII capital replaced by its small letter.
pub open spec fn lower_char(c: char) -> char {
    if is_upper(c) {
        ((c as int) + 32) as char
    } else {
        c
    }
}

/// `s` with its ASCII capitals made small. Where the text searched for is made
/// of ASCII letters other than `k` and of spaces, looking for it in this is the
/// same as looking for it in `str::to_lowercase`: only ASCII capitals lowercase
/// to those characters.
pub open spec fn ascii_lower(s: Seq<char>) -> Seq<char> {
    s.map_values(|c: char| lower_char(c))
}

/// `ascii_lower` of `s`.
pub fn to_ascii_lower(s: &str) -> (r: String)
    ensures
        r@ == ascii_lower(s@),
{
    let v = chars_of(s);
    let mut out = String::new();
    let mut i: usize = 0;
    while i < v.len()
        invariant
            v@ == s@,
            i <= v.len(),
            out@ == ascii_lower(s@).subrange(0, i as int),
        decreases v.len() - i,
    {
        let c = v[i];
        let d = if char_is_upper(c) {
            let b: u8 = (c as u32) as u8;
            (b + 32u8) as char
        } else {
            c
        };
        push_char(&mut out, d);
        i = i + 1;
        assert(out@ =~= ascii_lower(s@).subrange(0, i as int));
    }
    assert(out@ =~= ascii_lower(s@));
    out
}

// ---------------------------------------------------------------------------
// Decimal numbers
// ---------------------------------------------------------------------------
pub open spec fn digit_value(c: char) -> nat {
    (c as int - '0' as int) as nat
}

pub open spec fn all_digits(s: Seq<char>) -> bool {
    forall|i: int| 0 <= i < s.len() ==> is_digit(#[trigger] s[i])
}

/// The number that a run of decimal digits writes.
pub open spec fn digits_value(s: Seq<char>) -> nat
    decreases s.len(),
{
    if s.len() == 0 {
        0
    } else {
        digits_value(s.drop_last()) * 10 + digit_value(s.last())
    }
}

/// `str::parse` for an unsigned integer type whose largest value is `max`:
/// an optional `+`, then one or more ASCII digits, and a value no larger than `max`.
pub open spec fn parse_uint(s: Seq<char>, max: nat) -> Option<nat> {
    let body = if s.len() > 0 && s[0] == '+' {
        s.drop_first()
    } else {
        s
    };
    if body.len() > 0 && all_digits(body) && digits_value(body) <= max {
        Some(digits_value(body))
    } else {
        None
    }
}

proof fn lemma_digits_prefix_mono(s: Seq<char>, i: int)
    requires
        0 <= i <= s.len(),
    ensures
        digits_value(s.take(i)) <= digits_value(s),
    decreases s.len() - i,
{
    if i < s.len() {
        lemma_digits_prefix_mono(s, i + 1);
        assert(s.take(i + 1).drop_last() =~= s.take(i));
    } else {
        assert(s.take(i) =~= s);
    }
}

/// Parses `v[lo..hi]` as an unsigned number no larger than `max`.
pub fn parse_uint_range(v: &Vec<char>, lo: usize, hi: usize, max: u64) -> (r: Option<u64>)
    requires
        lo <= hi <= v@.len(),
    ensures
        match parse_uint(v@.subrange(lo as int, hi as int), max as nat) {
            Some(n) => r == Some(n as u64),
            None => r is None,
        },
{
    let ghost s = v@.subrange(lo as int, hi as int);
    let mut start = lo;
    if lo < hi && v[lo] == '+' {
        start = lo + 1;
    }
    let ghost body = v@.subrange(start as int, hi as int);
    assert(body =~= (if s.len() > 0 && s[0] == '+' {
        s.drop_first()
    } else {
        s
    }));
    assert(parse_uint(s, max as nat) == (if body.len() > 0 && all_digits(body) && digits_value(body)
        <= max {
        Some(digits_value(body))
    } else {
        None
    }));
    if start == hi {
        return None;
    }
    let mut acc: u64 = 0;
    let mut i = start;
    while i < hi
        invariant
            lo <= start <= i <= hi <= v@.len(),
            body == v@.subrange(start as int, hi as int),
            s == v@.subrange(lo as int, hi as int),
            parse_uint(s, max as nat) == (if body.len() > 0 && all_digits(body) && digits_value(body)
                <= max {
                Some(digits_value(body))
            } else {
                None
            }),
            all_digits(body.take(i - start)),
            acc == digits_value(body.take(i - start)),
            acc <= max,
        decreases hi - i,
    {
        let c = v[i];
        if !char_is_digit(c) {
            assert(body[i - start] == c);
            assert(!all_digits(body));
            return None;
        }
        let d = (c as u32 - '0' as u32) as u64;
        assert(body.take(i - start + 1).drop_last() =~= body.take(i - start));
        assert(body.take(i - start + 1).last() == c);
        assert(digits_value(body.take(i - start + 1)) == acc * 10 + d);
        if d > max {
            proof {
                lemma_digits_prefix_mono(body, i - start + 1);
            }
            return None;
        }
        if acc > (max - d) / 10 {
            proof {
                assert(acc * 10 + d > max) by (nonlinear_arith)
                    requires
                        acc > (max - d) / 10,
                        d <= max,
                ;
                lemma_digits_prefix_mono(body, i - start + 1);
            }
            return None;
        }
        proof {
            assert(acc * 10 + d <= max) by (nonlinear_arith)
                requires
                    acc <= (max - d) / 10,
                    d <= max,
            ;
        }
        acc = acc * 10 + d;
        i = i + 1;
        assert(all_digits(body.take(i - start)));
    }
    assert(body.take(i - start) =~= body);
    Some(acc)
}

/// The ASCII digit for `d < 10`.
pub open spec fn digit_char(d: nat) -> char {
    (('0' as int) + d) as char
}

/// `u64::to_string`: decimal digits without leading zeros.
pub open spec fn dec(n: nat) -> Seq<char>
    decreases n,
{
    if n < 10 {
        seq![digit_char(n)]
    } else {
        dec(n / 10) + seq![digit_char(n % 10)]
    }
}

fn digit_str(d: u64) -> (r: &'static str)
    requires
        d < 10,
    ensures
        r@ == seq![digit_char(d as nat)],
{
    proof {
        reveal_strlit("0");
        reveal_strlit("1");
        reveal_strlit("2");
        reveal_strlit("3");
        reveal_strlit("4");
        reveal_strlit("5");
        reveal_strlit("6");
        reveal_strlit("7");
        reveal_strlit("8");
        reveal_strlit("9");
    }
    if d == 0 {
        "0"
    } else if d == 1 {
        "1"
    } else if d == 2 {
        "2"
    } else if d == 3 {
        "3"
    } else if d == 4 {
        "4"
    } else if d == 5 {
        "5"
    } else if d == 6 {
        "6"
    } else if d == 7 {
        "7"
    } else if d == 8 {
        "8"
    } else {
        "9"
    }
}

/// Appends the decimal digits of `n` to `out`.
pub fn push_dec(out: &mut String, n: u64)
    ensures
        final(out)@ == old(out)@ + dec(n as nat),
    decreases n,
{
    if n < 10 {
        out.append(digit_str(n));
    } else {
        push_dec(out, n / 10);
        out.append(digit_str(n % 10));
    }
}

/// `n.to_string()`.
pub fn dec_string(n: u64) -> (r: String)
    ensures
        r@ == dec(n as nat),
{
    let mut s = String::new();
    push_dec(&mut s, n);
    assert(s@ =~= dec(n as nat));
    s
}

} // verus!
