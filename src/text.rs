use vstd::prelude::*;

verus! {

/// `t` begins with `p`.
pub open spec fn has_prefix(t: Seq<char>, p: Seq<char>) -> bool {
    p.len() <= t.len() && t.subrange(0, p.len() as int) == p
}

/// `t` ends with `s`.
pub open spec fn has_suffix(t: Seq<char>, s: Seq<char>) -> bool {
    s.len() <= t.len() && t.subrange(t.len() - s.len(), t.len() as int) == s
}

/// `t` is `p`, then something, then `s`, the two not overlapping.
pub open spec fn framed_by(t: Seq<char>, p: Seq<char>, s: Seq<char>) -> bool {
    p.len() + s.len() <= t.len() && has_prefix(t, p) && has_suffix(t, s)
}

/// What stands between the prefix `p` and the suffix `s` of `t`.
pub open spec fn inner(t: Seq<char>, p: Seq<char>, s: Seq<char>) -> Seq<char> {
    t.subrange(p.len() as int, t.len() - s.len())
}

pub proof fn lemma_framed(p: Seq<char>, m: Seq<char>, s: Seq<char>)
    ensures
        framed_by(p + m + s, p, s),
        inner(p + m + s, p, s) == m,
{
    let t = p + m + s;
    assert(t.subrange(0, p.len() as int) =~= p);
    assert(t.subrange(t.len() - s.len(), t.len() as int) =~= s);
    assert(inner(t, p, s) =~= m);
}

/// Two prefixes that differ at position `i` cannot both begin `t`.
pub proof fn lemma_prefixes_exclusive(t: Seq<char>, p1: Seq<char>, p2: Seq<char>, i: int)
    requires
        0 <= i < p1.len(),
        i < p2.len(),
        p1[i] != p2[i],
    ensures
        !(has_prefix(t, p1) && has_prefix(t, p2)),
{
    if has_prefix(t, p1) && has_prefix(t, p2) {
        assert(t.subrange(0, p1.len() as int)[i] == t[i]);
        assert(t.subrange(0, p2.len() as int)[i] == t[i]);
    }
}

/// Two suffixes that differ at position `i` from their ends cannot both end `t`.
pub proof fn lemma_suffixes_exclusive(t: Seq<char>, s1: Seq<char>, s2: Seq<char>, i: int)
    requires
        0 <= i < s1.len(),
        i < s2.len(),
        s1[s1.len() - 1 - i] != s2[s2.len() - 1 - i],
    ensures
        !(has_suffix(t, s1) && has_suffix(t, s2)),
{
    if has_suffix(t, s1) && has_suffix(t, s2) {
        assert(t.subrange(t.len() - s1.len(), t.len() as int)[s1.len() - 1 - i] == t[t.len() - 1 - i]);
        assert(t.subrange(t.len() - s2.len(), t.len() as int)[s2.len() - 1 - i] == t[t.len() - 1 - i]);
    }
}

/// Whether `t` begins with `p`.
pub fn starts_with(t: &str, p: &str) -> (r: bool)
    ensures
        r == has_prefix(t@, p@),
{
    let n = t.unicode_len();
    let m = p.unicode_len();
    if m > n {
        return false;
    }
    let mut i: usize = 0;
    while i < m
        invariant
            n == t@.len(),
            m == p@.len(),
            m <= n,
            i <= m,
            forall|j: int| 0 <= j < i ==> t@[j] == p@[j],
        decreases m - i,
    {
        if t.get_char(i) != p.get_char(i) {
            assert(t@.subrange(0, m as int)[i as int] == t@[i as int]);
            return false;
        }
        i = i + 1;
    }
    assert(t@.subrange(0, m as int) =~= p@);
    true
}

/// Whether `t` ends with `s`.
pub fn ends_with(t: &str, s: &str) -> (r: bool)
    ensures
        r == has_suffix(t@, s@),
{
    let n = t.unicode_len();
    let m = s.unicode_len();
    if m > n {
        return false;
    }
    let d = n - m;
    let mut i: usize = 0;
    while i < m
        invariant
            n == t@.len(),
            m == s@.len(),
            d == n - m,
            i <= m,
            forall|j: int| 0 <= j < i ==> t@[d + j] == s@[j],
        decreases m - i,
    {
        if t.get_char(d + i) != s.get_char(i) {
            assert(t@.subrange(d as int, n as int)[i as int] == t@[d + i]);
            return false;
        }
        i = i + 1;
    }
    assert(t@.subrange(d as int, n as int) =~= s@);
    true
}

/// Whether `a` and `b` hold the same text.
pub fn same_text(a: &str, b: &str) -> (r: bool)
    ensures
        r == (a@ == b@),
{
    if a.unicode_len() != b.unicode_len() {
        return false;
    }
    let r = starts_with(a, b);
    assert(a@ =~= a@.subrange(0, b@.len() as int));
    r
}

/// `a`, `b` and `c` one after another, as a new string.
pub fn join3(a: &str, b: &str, c: &str) -> (r: String)
    ensures
        r@ == a@ + b@ + c@,
{
    let mut s = String::from_str(a);
    s.append(b);
    s.append(c);
    s
}

} // verus!
