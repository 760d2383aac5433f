//! Character-level string operations with exact specifications.
use vstd::prelude::*;

verus! {

/// `p` occurs in `s` starting at character index `i`.
pub open spec fn occurs_at(s: Seq<char>, p: Seq<char>, i: int) -> bool {
    0 <= i && i + p.len() <= s.len() && s.subrange(i, i + p.len()) == p
}

/// `p` occurs somewhere in `s`.
pub open spec fn occurs(s: Seq<char>, p: Seq<char>) -> bool {
    exists|i: int| occurs_at(s, p, i)
}

/// `i` is the first position at which `p` occurs in `s`.
pub open spec fn first_occurrence(s: Seq<char>, p: Seq<char>, i: int) -> bool {
    occurs_at(s, p, i) && forall|j: int| 0 <= j < i ==> !occurs_at(s, p, j)
}

/// A pattern has at most one first occurrence.
pub proof fn lemma_first_occurrence_unique(s: Seq<char>, p: Seq<char>, i: int, j: int)
    requires
        first_occurrence(s, p, i),
        first_occurrence(s, p, j),
    ensures
        i == j,
{
    if i < j {
        assert(!occurs_at(s, p, i));
    } else if j < i {
        assert(!occurs_at(s, p, j));
    }
}

/// Every non-overlapping occurrence of `p` in `s[i..]`, scanning left to right,
/// replaced by `t`.
pub open spec fn replaced_from(s: Seq<char>, p: Seq<char>, t: Seq<char>, i: int) -> Seq<char>
    decreases s.len() - i,
{
    if i < 0 || i >= s.len() || p.len() == 0 {
        if 0 <= i <= s.len() { s.subrange(i, s.len() as int) } else { Seq::empty() }
    } else if occurs_at(s, p, i) {
        t + replaced_from(s, p, t, i + p.len())
    } else {
        seq![s[i]] + replaced_from(s, p, t, i + 1)
    }
}

/// Every non-overlapping occurrence of a non-empty `p` in `s` replaced by `t`.
pub open spec fn replaced(s: Seq<char>, p: Seq<char>, t: Seq<char>) -> Seq<char> {
    replaced_from(s, p, t, 0)
}

/// Where `p` does not occur at or after `i`, replacing leaves `s[i..]` as it is.
pub proof fn lemma_replaced_from_absent(s: Seq<char>, p: Seq<char>, t: Seq<char>, i: int)
    requires
        0 <= i <= s.len(),
        forall|j: int| i <= j ==> !occurs_at(s, p, j),
    ensures
        replaced_from(s, p, t, i) == s.subrange(i, s.len() as int),
    decreases s.len() - i,
{
    if i < s.len() && p.len() > 0 {
        lemma_replaced_from_absent(s, p, t, i + 1);
        assert(seq![s[i]] + s.subrange(i + 1, s.len() as int) =~= s.subrange(i, s.len() as int));
    }
}

/// Replacing a pattern that does not occur leaves the text as it is.
pub proof fn lemma_replaced_absent(s: Seq<char>, p: Seq<char>, t: Seq<char>)
    requires
        !occurs(s, p),
    ensures
        replaced(s, p, t) == s,
{
    lemma_replaced_from_absent(s, p, t, 0);
    assert(s.subrange(0, s.len() as int) =~= s);
}

/// Whether `p` occurs in `s` at character index `i`.
pub fn matches_at(s: &str, slen: usize, p: &str, plen: usize, i: usize) -> (r: bool)
    requires
        slen == s@.len(),
        plen == p@.len(),
    ensures
        r == occurs_at(s@, p@, i as int),
{
    if i > slen || plen > slen - i {
        return false;
    }
    let mut k: usize = 0;
    while k < plen
        invariant
            k <= plen,
            i + plen <= slen,
            slen == s@.len(),
            plen == p@.len(),
            forall|m: int| 0 <= m < k ==> s@[i + m] == p@[m],
        decreases plen - k,
    {
        if s.get_char(i + k) != p.get_char(k) {
            assert(s@.subrange(i as int, i + plen)[k as int] != p@[k as int]);
            return false;
        }
        k = k + 1;
    }
    assert(s@.subrange(i as int, i + plen) =~= p@);
    true
}

/// The character index of the first occurrence of `p` in `s`.
pub fn find_text(s: &str, p: &str) -> (r: Option<usize>)
    ensures
        match r {
            Some(i) => first_occurrence(s@, p@, i as int),
            None => !occurs(s@, p@),
        },
{
    let slen = s.unicode_len();
    let plen = p.unicode_len();
    if plen > slen {
        return None;
    }
    let mut i: usize = 0;
    loop
        invariant
            plen <= slen,
            i <= slen - plen,
            slen == s@.len(),
            plen == p@.len(),
            forall|j: int| 0 <= j < i ==> !occurs_at(s@, p@, j),
        decreases slen - plen - i,
    {
        if matches_at(s, slen, p, plen, i) {
            return Some(i);
        }
        if i == slen - plen {
            assert forall|j: int| !occurs_at(s@, p@, j) by {
                if 0 <= j && j < i {
                }
            }
            return None;
        }
        i = i + 1;
    }
}

/// Whether `p` occurs in `s`.
pub fn contains_text(s: &str, p: &str) -> (r: bool)
    ensures
        r == occurs(s@, p@),
{
    find_text(s, p).is_some()
}

/// `s` with every non-overlapping occurrence of `p`, scanned left to right,
/// replaced by `t`.
pub fn replace_text(s: &str, p: &str, t: &str) -> (r: String)
    requires
        p@.len() > 0,
    ensures
        r@ == replaced(s@, p@, t@),
{
    let slen = s.unicode_len();
    let plen = p.unicode_len();
    let mut out = String::new();
    let mut i: usize = 0;
    while i < slen
        invariant
            i <= slen,
            slen == s@.len(),
            plen == p@.len(),
            plen > 0,
            out@ + replaced_from(s@, p@, t@, i as int) == replaced(s@, p@, t@),
        decreases slen - i,
    {
        if matches_at(s, slen, p, plen, i) {
            out.append(t);
            proof {
                assert(out@ + replaced_from(s@, p@, t@, i + plen) =~= replaced(s@, p@, t@));
            }
            i = i + plen;
        } else {
            let c = s.substring_char(i, i + 1);
            out.append(c);
            proof {
                assert(c@ =~= seq![s@[i as int]]);
                assert(out@ + replaced_from(s@, p@, t@, i + 1) =~= replaced(s@, p@, t@));
            }
            i = i + 1;
        }
    }
    assert(replaced_from(s@, p@, t@, i as int) =~= Seq::<char>::empty());
    assert(out@ =~= replaced(s@, p@, t@));
    out
}

/// Whether `a` and `b` hold the same characters.
pub fn same_text(a: &str, b: &str) -> (r: bool)
    ensures
        r == (a@ == b@),
{
    let alen = a.unicode_len();
    let blen = b.unicode_len();
    if alen != blen {
        return false;
    }
    let r = matches_at(a, alen, b, blen, 0);
    proof {
        assert(a@.subrange(0, alen as int) =~= a@);
    }
    r
}

/// What `str::trim` leaves of `s`.
pub uninterp spec fn trimmed(s: Seq<char>) -> Seq<char>;

/// Relies on `str::trim`: leading and trailing whitespace removed, a function
/// of the characters alone.
#[verifier::external_body]
pub(crate) fn trim_text(s: &str) -> (r: String)
    ensures
        r@ == trimmed(s@),
{
    s.trim().to_string()
}

} // verus!
