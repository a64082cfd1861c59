//! Substring search and byte-string assembly.
use vstd::prelude::*;

verus! {

/// `p` occurs in `s` starting at index `i`.
pub open spec fn occurs_at<T>(s: Seq<T>, p: Seq<T>, i: int) -> bool {
    0 <= i && i + p.len() <= s.len() && s.subrange(i, i + p.len()) == p
}

pub open spec fn contains<T>(s: Seq<T>, p: Seq<T>) -> bool {
    exists|i: int| occurs_at(s, p, i)
}

pub open spec fn has_prefix(b: Seq<u8>, p: Seq<u8>) -> bool {
    p.len() <= b.len() && b.subrange(0, p.len() as int) == p
}

pub fn starts_with(s: &[u8], p: &[u8]) -> (r: bool)
    ensures
        r == has_prefix(s@, p@),
{
    if p.len() > s.len() {
        return false;
    }
    let mut i: usize = 0;
    while i < p.len()
        invariant
            p@.len() <= s@.len(),
            i <= p@.len(),
            forall|j: int| 0 <= j < i ==> s@[j] == p@[j],
        decreases p@.len() - i,
    {
        if s[i] != p[i] {
            assert(s@.subrange(0, p@.len() as int)[i as int] != p@[i as int]);
            return false;
        }
        i = i + 1;
    }
    assert(s@.subrange(0, p@.len() as int) =~= p@);
    true
}

/// The first index at or after `from` where `p` occurs in `s`.
pub open spec fn first_index<T>(s: Seq<T>, p: Seq<T>, from: int) -> Option<int>
    decreases s.len() - from,
{
    if from < 0 || from + p.len() > s.len() {
        None
    } else if occurs_at(s, p, from) {
        Some(from)
    } else if from >= s.len() {
        None
    } else {
        first_index(s, p, from + 1)
    }
}

pub proof fn lemma_first_index_none<T>(s: Seq<T>, p: Seq<T>, from: int)
    requires
        0 <= from,
        first_index(s, p, from) is None,
    ensures
        forall|j: int| from <= j ==> !occurs_at(s, p, j),
    decreases s.len() - from,
{
    if from + p.len() <= s.len() && from < s.len() {
        lemma_first_index_none(s, p, from + 1);
    }
}

pub proof fn lemma_first_index_some<T>(s: Seq<T>, p: Seq<T>, from: int)
    requires
        0 <= from,
        first_index(s, p, from) is Some,
    ensures
        occurs_at(s, p, first_index(s, p, from)->0),
        from <= first_index(s, p, from)->0,
    decreases s.len() - from,
{
    if !occurs_at(s, p, from) && from < s.len() {
        lemma_first_index_some(s, p, from + 1);
    }
}

/// `contains` holds exactly when a search from the start finds something.
pub proof fn lemma_contains_first_index<T>(s: Seq<T>, p: Seq<T>)
    ensures
        contains(s, p) <==> first_index(s, p, 0) is Some,
{
    if first_index(s, p, 0) is Some {
        lemma_first_index_some(s, p, 0);
    } else {
        lemma_first_index_none(s, p, 0);
    }
}

fn matches_at(s: &[u8], p: &[u8], i: usize) -> (r: bool)
    requires
        i + p@.len() <= s@.len(),
    ensures
        r == occurs_at(s@, p@, i as int),
{
    let n = s.len();
    let mut k: usize = 0;
    while k < p.len()
        invariant
            n == s@.len(),
            i + p@.len() <= s@.len(),
            k <= p@.len(),
            forall|j: int| 0 <= j < k ==> s@[i + j] == p@[j],
        decreases p@.len() - k,
    {
        if s[i + k] != p[k] {
            assert(s@.subrange(i as int, i + p@.len())[k as int] != p@[k as int]);
            return false;
        }
        k = k + 1;
    }
    assert(s@.subrange(i as int, i + p@.len()) =~= p@);
    true
}

/// The first occurrence of `p` in `s` at or after `from`.
pub fn find_from(s: &[u8], p: &[u8], from: usize) -> (r: Option<usize>)
    ensures
        r matches Some(i) ==> first_index(s@, p@, from as int) == Some(i as int) && i + p@.len()
            <= s@.len(),
        r is None ==> first_index(s@, p@, from as int) is None,
{
    if p.len() > s.len() || from > s.len() - p.len() {
        return None;
    }
    if p.len() == 0 {
        assert(s@.subrange(from as int, from as int) =~= p@);
        return Some(from);
    }
    let n = s.len();
    let last = n - p.len();
    let mut i: usize = from;
    while i <= last
        invariant
            n == s@.len(),
            i <= last + 1,
            last == s@.len() - p@.len(),
            last < s@.len(),
            p@.len() > 0,
            from <= i,
            first_index(s@, p@, from as int) == first_index(s@, p@, i as int),
        decreases last + 1 - i,
    {
        if matches_at(s, p, i) {
            return Some(i);
        }
        i = i + 1;
    }
    None
}

pub fn contains_bytes(s: &[u8], p: &[u8]) -> (r: bool)
    ensures
        r == contains(s@, p@),
{
    proof {
        lemma_contains_first_index(s@, p@);
    }
    find_from(s, p, 0).is_some()
}

/// Appends `s` to `v`.
pub fn append_bytes(v: &mut Vec<u8>, s: &[u8])
    ensures
        final(v)@ == old(v)@ + s@,
{
    let ghost start = v@;
    let mut i: usize = 0;
    while i < s.len()
        invariant
            i <= s@.len(),
            v@ == start + s@.subrange(0, i as int),
        decreases s@.len() - i,
    {
        v.push(s[i]);
        i = i + 1;
        assert(v@ =~= start + s@.subrange(0, i as int));
    }
    assert(s@.subrange(0, i as int) =~= s@);
}

/// A copy of `s[start..end]`.
pub fn copy_range(s: &[u8], start: usize, end: usize) -> (r: Vec<u8>)
    requires
        start <= end <= s@.len(),
    ensures
        r@ == s@.subrange(start as int, end as int),
{
    let mut r: Vec<u8> = Vec::new();
    let mut i: usize = start;
    while i < end
        invariant
            start <= i <= end <= s@.len(),
            r@ == s@.subrange(start as int, i as int),
        decreases end - i,
    {
        r.push(s[i]);
        i = i + 1;
        assert(r@ =~= s@.subrange(start as int, i as int));
    }
    r
}

/// The decimal digits of `n`, most significant first.
pub open spec fn decimal(n: nat) -> Seq<u8>
    decreases n,
{
    if n < 10 {
        seq![(48 + n) as u8]
    } else {
        decimal(n / 10).push((48 + n % 10) as u8)
    }
}

/// Appends the decimal digits of `n` to `v`.
pub fn append_decimal(v: &mut Vec<u8>, n: u64)
    ensures
        final(v)@ == old(v)@ + decimal(n as nat),
    decreases n,
{
    if n >= 10 {
        append_decimal(v, n / 10);
    }
    v.push((48 + n % 10) as u8);
    assert(v@ =~= old(v)@ + decimal(n as nat));
}

} // verus!
