//! Lexicographic byte order and byte prefixes.
use vstd::prelude::*;

verus! {

/// `a <= b` in lexicographic byte order.
pub open spec fn lex_le(a: Seq<u8>, b: Seq<u8>) -> bool
    decreases a.len(),
{
    if a.len() == 0 {
        true
    } else if b.len() == 0 {
        false
    } else if a[0] != b[0] {
        a[0] < b[0]
    } else {
        lex_le(a.drop_first(), b.drop_first())
    }
}

/// `a < b` in lexicographic byte order.
pub open spec fn lex_lt(a: Seq<u8>, b: Seq<u8>) -> bool {
    lex_le(a, b) && a != b
}

/// `p` is a byte prefix of `k`.
pub open spec fn is_prefix(p: Seq<u8>, k: Seq<u8>) -> bool {
    p.len() <= k.len() && k.subrange(0, p.len() as int) == p
}

pub proof fn lemma_lex_le_reflexive(a: Seq<u8>)
    ensures
        lex_le(a, a),
    decreases a.len(),
{
    if a.len() > 0 {
        lemma_lex_le_reflexive(a.drop_first());
    }
}

pub proof fn lemma_lex_le_total(a: Seq<u8>, b: Seq<u8>)
    ensures
        lex_le(a, b) || lex_le(b, a),
    decreases a.len(),
{
    if a.len() > 0 && b.len() > 0 && a[0] == b[0] {
        lemma_lex_le_total(a.drop_first(), b.drop_first());
    }
}

pub proof fn lemma_lex_le_antisymmetric(a: Seq<u8>, b: Seq<u8>)
    requires
        lex_le(a, b),
        lex_le(b, a),
    ensures
        a == b,
    decreases a.len(),
{
    if a.len() > 0 && b.len() > 0 {
        lemma_lex_le_antisymmetric(a.drop_first(), b.drop_first());
        assert(a == seq![a[0]] + a.drop_first());
        assert(b == seq![b[0]] + b.drop_first());
    } else {
        assert(a.len() == 0 && b.len() == 0);
        assert(a =~= b);
    }
}

pub proof fn lemma_lex_le_transitive(a: Seq<u8>, b: Seq<u8>, c: Seq<u8>)
    requires
        lex_le(a, b),
        lex_le(b, c),
    ensures
        lex_le(a, c),
    decreases a.len(),
{
    if a.len() > 0 && b.len() > 0 && c.len() > 0 && a[0] == b[0] && b[0] == c[0] {
        lemma_lex_le_transitive(a.drop_first(), b.drop_first(), c.drop_first());
    }
}

pub proof fn lemma_lex_lt_le_transitive(a: Seq<u8>, b: Seq<u8>, c: Seq<u8>)
    requires
        lex_lt(a, b),
        lex_le(b, c),
    ensures
        lex_lt(a, c),
{
    lemma_lex_le_transitive(a, b, c);
    if a == c {
        lemma_lex_le_antisymmetric(a, b);
    }
}

/// Exactly one of `a < b` and `b <= a` holds.
pub proof fn lemma_lex_lt_or_ge(a: Seq<u8>, b: Seq<u8>)
    ensures
        lex_lt(a, b) != lex_le(b, a),
{
    lemma_lex_le_total(a, b);
    lemma_lex_le_reflexive(a);
    if lex_le(a, b) && lex_le(b, a) {
        lemma_lex_le_antisymmetric(a, b);
    }
}

proof fn lemma_prefix_drop_first(p: Seq<u8>, k: Seq<u8>)
    requires
        is_prefix(p, k),
        p.len() > 0,
    ensures
        k.len() > 0,
        k[0] == p[0],
        is_prefix(p.drop_first(), k.drop_first()),
{
    assert(k.subrange(0, p.len() as int)[0] == p[0]);
    assert(k.drop_first().subrange(0, p.len() - 1) =~= k.subrange(0, p.len() as int).drop_first());
}

/// A sequence is not below any sequence it is a prefix of.
pub proof fn lemma_prefix_le(p: Seq<u8>, k: Seq<u8>)
    requires
        is_prefix(p, k),
    ensures
        lex_le(p, k),
    decreases p.len(),
{
    if p.len() > 0 {
        lemma_prefix_drop_first(p, k);
        lemma_prefix_le(p.drop_first(), k.drop_first());
    }
}

/// The sequences that start with `p` form an interval of the order.
pub proof fn lemma_prefix_interval(p: Seq<u8>, a: Seq<u8>, b: Seq<u8>, c: Seq<u8>)
    requires
        is_prefix(p, a),
        is_prefix(p, c),
        lex_le(a, b),
        lex_le(b, c),
    ensures
        is_prefix(p, b),
    decreases p.len(),
{
    if p.len() == 0 {
        assert(b.subrange(0, 0) =~= p);
    } else {
        lemma_prefix_drop_first(p, a);
        lemma_prefix_drop_first(p, c);
        assert(b.len() > 0);
        assert(b[0] == p[0]);
        lemma_prefix_interval(p.drop_first(), a.drop_first(), b.drop_first(), c.drop_first());
        let q = p.drop_first();
        assert(b.drop_first().subrange(0, q.len() as int) == q);
        assert(b.subrange(0, p.len() as int) =~= seq![b[0]] + b.drop_first().subrange(0, q.len() as int));
        assert(p =~= seq![p[0]] + q);
    }
}

/// Decides `a <= b` in lexicographic byte order.
pub fn bytes_le(a: &[u8], b: &[u8]) -> (r: bool)
    ensures
        r == lex_le(a@, b@),
{
    let mut i: usize = 0;
    assert(a@.subrange(0, a@.len() as int) =~= a@);
    assert(b@.subrange(0, b@.len() as int) =~= b@);
    while i < a.len() && i < b.len()
        invariant
            i <= a@.len(),
            i <= b@.len(),
            a@.subrange(0, i as int) == b@.subrange(0, i as int),
            lex_le(a@, b@) == lex_le(a@.subrange(i as int, a@.len() as int), b@.subrange(i as int, b@.len() as int)),
        decreases a.len() - i,
    {
        if a[i] != b[i] {
            return a[i] < b[i];
        }
        proof {
            let sa = a@.subrange(i as int, a@.len() as int);
            let sb = b@.subrange(i as int, b@.len() as int);
            assert(sa.drop_first() =~= a@.subrange(i + 1, a@.len() as int));
            assert(sb.drop_first() =~= b@.subrange(i + 1, b@.len() as int));
            assert(a@.subrange(0, i + 1) =~= a@.subrange(0, i as int).push(a@[i as int]));
            assert(b@.subrange(0, i + 1) =~= b@.subrange(0, i as int).push(b@[i as int]));
        }
        i = i + 1;
    }
    i == a.len()
}

/// Decides whether `p` is a byte prefix of `k`.
pub fn has_prefix(k: &[u8], p: &[u8]) -> (r: bool)
    ensures
        r == is_prefix(p@, k@),
{
    if p.len() > k.len() {
        return false;
    }
    let mut i: usize = 0;
    while i < p.len()
        invariant
            p@.len() <= k@.len(),
            i <= p@.len(),
            k@.subrange(0, i as int) == p@.subrange(0, i as int),
        decreases p.len() - i,
    {
        if k[i] != p[i] {
            assert(k@.subrange(0, p@.len() as int)[i as int] != p@[i as int]);
            return false;
        }
        assert(k@.subrange(0, i + 1) =~= k@.subrange(0, i as int).push(k@[i as int]));
        assert(p@.subrange(0, i + 1) =~= p@.subrange(0, i as int).push(p@[i as int]));
        i = i + 1;
    }
    assert(p@.subrange(0, p@.len() as int) =~= p@);
    true
}

} // verus!
