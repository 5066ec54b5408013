use vstd::prelude::*;
use vstd::string::*;

verus! {

// ---------------------------------------------------------------------------
// Substring search
// ---------------------------------------------------------------------------

/// `pat` occurs in `s` starting at position `i`.
pub open spec fn matches_at(s: Seq<char>, pat: Seq<char>, i: int) -> bool {
    0 <= i && i + pat.len() <= s.len() && s.subrange(i, i + pat.len()) == pat
}

pub open spec fn has_match(s: Seq<char>, pat: Seq<char>) -> bool {
    exists|i: int| matches_at(s, pat, i)
}

/// `i` is the leftmost occurrence of `pat` in `s`.
pub open spec fn is_first_match(s: Seq<char>, pat: Seq<char>, i: int) -> bool {
    matches_at(s, pat, i) && (forall|j: int| 0 <= j < i ==> !matches_at(s, pat, j))
}

pub open spec fn first_match(s: Seq<char>, pat: Seq<char>) -> int {
    choose|i: int| is_first_match(s, pat, i)
}

/// Whenever `pat` occurs at all, a leftmost occurrence exists, and
/// `first_match` denotes it.
pub proof fn lemma_first_match(s: Seq<char>, pat: Seq<char>)
    requires
        has_match(s, pat),
    ensures
        is_first_match(s, pat, first_match(s, pat)),
{
    let i0 = choose|i: int| matches_at(s, pat, i);
    lemma_first_match_bounded(s, pat, i0);
}

/// Helper: below any given occurrence there is a leftmost occurrence.
proof fn lemma_first_match_bounded(s: Seq<char>, pat: Seq<char>, i0: int)
    requires
        matches_at(s, pat, i0),
    ensures
        exists|i: int| is_first_match(s, pat, i),
    decreases i0,
{
    if forall|j: int| 0 <= j < i0 ==> !matches_at(s, pat, j) {
        assert(is_first_match(s, pat, i0));
    } else {
        let j0 = choose|j: int| 0 <= j < i0 && matches_at(s, pat, j);
        lemma_first_match_bounded(s, pat, j0);
    }
}

/// Two leftmost occurrences coincide.
pub proof fn lemma_first_match_unique(s: Seq<char>, pat: Seq<char>, i: int, j: int)
    requires
        is_first_match(s, pat, i),
        is_first_match(s, pat, j),
    ensures
        i == j,
{
}

/// Whether `pat` occurs in `s` at position `i`, decided by comparing
/// characters.
fn match_at_exec(s: &str, pat: &str, i: usize) -> (r: bool)
    requires
        i + pat@.len() <= s@.len(),
        s@.len() <= usize::MAX,
    ensures
        r == matches_at(s@, pat@, i as int),
{
    let plen = pat.unicode_len();
    let mut j: usize = 0;
    while j < plen
        invariant
            j <= plen,
            plen == pat@.len(),
            i + plen <= s@.len(),
            s@.len() <= usize::MAX,
            forall|k: int| 0 <= k < j ==> s@[i + k] == pat@[k],
        decreases plen - j,
    {
        if s.get_char(i + j) != pat.get_char(j) {
            assert(!matches_at(s@, pat@, i as int)) by {
                assert(s@.subrange(i as int, i + plen) != pat@) by {
                    assert(s@.subrange(i as int, i + plen)[j as int] == s@[i + j]);
                }
            }
            return false;
        }
        j += 1;
    }
    assert(s@.subrange(i as int, i + plen) =~= pat@);
    true
}

/// The leftmost occurrence of `pat` in `s`, if any (position counted in
/// characters).
pub fn find_sub(s: &str, pat: &str) -> (r: Option<usize>)
    ensures
        match r {
            Some(i) => is_first_match(s@, pat@, i as int),
            None => !has_match(s@, pat@),
        },
{
    let slen = s.unicode_len();
    let plen = pat.unicode_len();
    if plen > slen {
        assert(forall|j: int| !matches_at(s@, pat@, j));
        return None;
    }
    if plen == 0 {
        assert(s@.subrange(0, 0) =~= pat@);
        return Some(0);
    }
    let limit = slen - plen;
    let mut i: usize = 0;
    while i <= limit
        invariant
            slen == s@.len(),
            plen == pat@.len(),
            1 <= plen <= slen,
            limit == slen - plen,
            i <= limit + 1,
            forall|j: int| 0 <= j < i ==> !matches_at(s@, pat@, j),
        decreases limit + 1 - i,
    {
        if match_at_exec(s, pat, i) {
            return Some(i);
        }
        i += 1;
    }
    assert(forall|j: int| !matches_at(s@, pat@, j));
    None
}

/// Character-wise string equality.
pub fn str_eq(a: &str, b: &str) -> (r: bool)
    ensures
        r == (a@ == b@),
{
    let alen = a.unicode_len();
    let blen = b.unicode_len();
    if alen != blen {
        return false;
    }
    let mut i: usize = 0;
    while i < alen
        invariant
            alen == a@.len(),
            alen == b@.len(),
            i <= alen,
            forall|k: int| 0 <= k < i ==> a@[k] == b@[k],
        decreases alen - i,
    {
        if a.get_char(i) != b.get_char(i) {
            return false;
        }
        i += 1;
    }
    assert(a@ =~= b@);
    true
}

// ---------------------------------------------------------------------------
// Splitting on a separator character
// ---------------------------------------------------------------------------

/// Splitting `s` on `sep` with `cur` the piece read so far.
pub open spec fn split_rec(s: Seq<char>, sep: char, cur: Seq<char>) -> Seq<Seq<char>>
    decreases s.len(),
{
    if s.len() == 0 {
        seq![cur]
    } else if s[0] == sep {
        seq![cur] + split_rec(s.drop_first(), sep, Seq::empty())
    } else {
        split_rec(s.drop_first(), sep, cur.push(s[0]))
    }
}

/// The pieces of `s` between occurrences of `sep`, in order; never empty,
/// and `"a/b".split('/')` style: an `s` without `sep` yields just `s`.
pub open spec fn split_spec(s: Seq<char>, sep: char) -> Seq<Seq<char>> {
    split_rec(s, sep, Seq::empty())
}

pub proof fn lemma_split_rec_len(s: Seq<char>, sep: char, cur: Seq<char>)
    ensures
        split_rec(s, sep, cur).len() >= 1,
    decreases s.len(),
{
    if s.len() == 0 {
    } else if s[0] == sep {
        lemma_split_rec_len(s.drop_first(), sep, Seq::empty());
    } else {
        lemma_split_rec_len(s.drop_first(), sep, cur.push(s[0]));
    }
}

/// Splitting never yields an empty list of pieces.
pub proof fn lemma_split_len(s: Seq<char>, sep: char)
    ensures
        split_spec(s, sep).len() >= 1,
{
    lemma_split_rec_len(s, sep, Seq::empty());
}

/// The pieces of `s` between occurrences of `sep`.
pub fn split_char(s: &str, sep: char) -> (r: Vec<String>)
    ensures
        r.deep_view() == split_spec(s@, sep),
{
    let n = s.unicode_len();
    let mut parts: Vec<String> = Vec::new();
    let mut start: usize = 0;
    let mut i: usize = 0;
    proof {
        assert(s@.subrange(0, n as int) =~= s@);
        assert(s@.subrange(0, 0) =~= Seq::<char>::empty());
        assert(parts.deep_view() + split_rec(s@, sep, Seq::empty()) =~~= split_spec(s@, sep));
    }
    while i < n
        invariant
            n == s@.len(),
            start <= i <= n,
            split_spec(s@, sep) == parts.deep_view() + split_rec(
                s@.subrange(i as int, n as int),
                sep,
                s@.subrange(start as int, i as int),
            ),
        decreases n - i,
    {
        let ghost rest = s@.subrange(i as int, n as int);
        let ghost cur = s@.subrange(start as int, i as int);
        let ghost dv = parts.deep_view();
        if s.get_char(i) == sep {
            let piece = String::from_str(s.substring_char(start, i));
            parts.push(piece);
            proof {
                assert(rest[0] == sep);
                assert(rest.drop_first() =~= s@.subrange(i + 1, n as int));
                assert(parts.deep_view() =~~= dv.push(cur));
                assert(dv.push(cur) + split_rec(s@.subrange(i + 1, n as int), sep, Seq::empty())
                    =~~= dv + split_rec(rest, sep, cur));
                assert(s@.subrange(i + 1, i + 1).len() == 0);
                assert(s@.subrange(i + 1, i + 1) =~= Seq::<char>::empty());
            }
            start = i + 1;
        } else {
            proof {
                assert(rest[0] == s@[i as int]);
                assert(rest.drop_first() =~= s@.subrange(i + 1, n as int));
                assert(cur.push(s@[i as int]) =~= s@.subrange(start as int, i + 1));
            }
        }
        i += 1;
    }
    let ghost dv = parts.deep_view();
    let last = String::from_str(s.substring_char(start, n));
    parts.push(last);
    proof {
        let ghost cur = s@.subrange(start as int, n as int);
        assert(s@.subrange(n as int, n as int).len() == 0);
        assert(parts.deep_view() =~~= dv.push(cur));
        assert(dv.push(cur) =~~= dv + seq![cur]);
        assert(parts.deep_view() =~~= split_spec(s@, sep));
    }
    parts
}

// ---------------------------------------------------------------------------
// Concatenation
// ---------------------------------------------------------------------------

/// `a` followed by `b`.
pub fn concat2(a: &str, b: &str) -> (r: String)
    ensures
        r@ == a@ + b@,
{
    let mut r = a.to_owned();
    r.append(b);
    r
}

/// `a`, `b`, then `c`.
pub fn concat3(a: &str, b: &str, c: &str) -> (r: String)
    ensures
        r@ == a@ + b@ + c@,
{
    let mut r = a.to_owned();
    r.append(b);
    r.append(c);
    r
}

/// `a`, `b`, `c`, then `d`.
pub fn concat4(a: &str, b: &str, c: &str, d: &str) -> (r: String)
    ensures
        r@ == a@ + b@ + c@ + d@,
{
    let mut r = a.to_owned();
    r.append(b);
    r.append(c);
    r.append(d);
    r
}

/// `a` through `e` in order.
pub fn concat5(a: &str, b: &str, c: &str, d: &str, e: &str) -> (r: String)
    ensures
        r@ == a@ + b@ + c@ + d@ + e@,
{
    let mut r = a.to_owned();
    r.append(b);
    r.append(c);
    r.append(d);
    r.append(e);
    r
}

// ---------------------------------------------------------------------------
// Replacing every occurrence of a pattern
// ---------------------------------------------------------------------------

/// `s` with every occurrence of `pat` replaced by `val`: occurrences are
/// found leftmost first and are not overlapping, the text already
/// substituted is not rescanned.
pub open spec fn replace_spec(s: Seq<char>, pat: Seq<char>, val: Seq<char>) -> Seq<char>
    decreases s.len() when pat.len() > 0 via replace_spec_decreases
{
    if has_match(s, pat) {
        let i = first_match(s, pat);
        s.subrange(0, i) + val + replace_spec(s.subrange(i + pat.len(), s.len() as int), pat, val)
    } else {
        s
    }
}

#[via_fn]
proof fn replace_spec_decreases(s: Seq<char>, pat: Seq<char>, val: Seq<char>) {
    if pat.len() > 0 && has_match(s, pat) {
        lemma_first_match(s, pat);
    }
}

/// `s` with every occurrence of `pat` replaced by `val`.
pub fn replace_all(s: &str, pat: &str, val: &str) -> (r: String)
    requires
        pat@.len() > 0,
    ensures
        r@ == replace_spec(s@, pat@, val@),
    decreases s@.len(),
{
    match find_sub(s, pat) {
        None => s.to_owned(),
        Some(i) => {
            proof {
                lemma_first_match(s@, pat@);
                lemma_first_match_unique(s@, pat@, i as int, first_match(s@, pat@));
            }
            let n = s.unicode_len();
            let plen = pat.unicode_len();
            let head = s.substring_char(0, i);
            let rest = s.substring_char(i + plen, n);
            let tail = replace_all(rest, pat, val);
            let mut r = head.to_owned();
            r.append(val);
            r.append(tail.as_str());
            r
        },
    }
}

// ---------------------------------------------------------------------------
// Trimming surrounding whitespace
// ---------------------------------------------------------------------------

/// Whether a character counts as whitespace; what `char::is_whitespace`
/// decides (the Unicode White_Space property).
pub uninterp spec fn is_space(c: char) -> bool;

/// Relies on char::is_whitespace: true exactly for characters with the
/// Unicode White_Space property, a fixed function of the character alone,
/// named `is_space` here.
#[verifier::external_body]
fn char_is_space(c: char) -> (r: bool)
    ensures
        r == is_space(c),
{
    c.is_whitespace()
}

pub open spec fn trim_start_spec(s: Seq<char>) -> Seq<char>
    decreases s.len(),
{
    if s.len() > 0 && is_space(s[0]) {
        trim_start_spec(s.drop_first())
    } else {
        s
    }
}

pub open spec fn trim_end_spec(s: Seq<char>) -> Seq<char>
    decreases s.len(),
{
    if s.len() > 0 && is_space(s[s.len() - 1]) {
        trim_end_spec(s.drop_last())
    } else {
        s
    }
}

/// `s` without leading and trailing whitespace, as `str::trim` leaves it.
pub open spec fn trim_spec(s: Seq<char>) -> Seq<char> {
    trim_end_spec(trim_start_spec(s))
}

fn trim_start_exec<'a>(s: &'a str) -> (r: &'a str)
    ensures
        r@ == trim_start_spec(s@),
    decreases s@.len(),
{
    let n = s.unicode_len();
    if n > 0 && char_is_space(s.get_char(0)) {
        let rest = s.substring_char(1, n);
        proof {
            assert(rest@ =~= s@.drop_first());
        }
        trim_start_exec(rest)
    } else {
        s
    }
}

fn trim_end_exec<'a>(s: &'a str) -> (r: &'a str)
    ensures
        r@ == trim_end_spec(s@),
    decreases s@.len(),
{
    let n = s.unicode_len();
    if n > 0 && char_is_space(s.get_char(n - 1)) {
        let rest = s.substring_char(0, n - 1);
        proof {
            assert(rest@ =~= s@.drop_last());
        }
        trim_end_exec(rest)
    } else {
        s
    }
}

/// `s` without leading and trailing whitespace.
pub fn trim_str(s: &str) -> (r: String)
    ensures
        r@ == trim_spec(s@),
{
    trim_end_exec(trim_start_exec(s)).to_owned()
}

} // verus!
