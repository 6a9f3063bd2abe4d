//! What the bounds guarantee of the keys an iterator yields, proved against
//! the cursor model of [`crate::model`].
use vstd::prelude::*;
use crate::bounded::{
    accepts, fresh, resume_spec, with_phase, CursorOp, Direction, IterView, Phase, Traversal,
};
use crate::model::{
    advance_model, drive, key_at, last_model, move_cursor, seek_pos, sorted, yields,
};
use crate::order::{
    is_prefix, lemma_lex_le_antisymmetric, lemma_lex_le_reflexive, lemma_lex_le_transitive,
    lemma_lex_lt_le_transitive, lemma_lex_lt_or_ge,
    lemma_prefix_interval, lemma_prefix_le, lex_le, lex_lt,
};

verus! {

proof fn lemma_sorted_le(keys: Seq<Seq<u8>>, i: int, j: int)
    requires
        sorted(keys),
        0 <= i <= j < keys.len(),
    ensures
        lex_le(keys[i], keys[j]),
{
    if i == j {
        lemma_lex_le_reflexive(keys[i]);
    } else {
        assert(lex_lt(keys[i], keys[j]));
    }
}

/// A seek lands on the first key not below its target.
pub proof fn lemma_seek_pos(keys: Seq<Seq<u8>>, t: Seq<u8>)
    requires
        sorted(keys),
    ensures
        0 <= seek_pos(keys, t) <= keys.len(),
        forall|j: int| 0 <= j < seek_pos(keys, t) ==> lex_lt(#[trigger] keys[j], t),
        forall|j: int| seek_pos(keys, t) <= j < keys.len() ==> lex_le(t, #[trigger] keys[j]),
    decreases keys.len(),
{
    let n = keys.len() as int;
    if n > 0 {
        let d = keys.drop_last();
        assert(sorted(d));
        lemma_seek_pos(d, t);
        if lex_lt(keys.last(), t) {
            assert forall|j: int| 0 <= j < n implies lex_lt(#[trigger] keys[j], t) by {
                if j < n - 1 {
                    assert(lex_lt(keys[j], keys[n - 1]));
                    lemma_lex_lt_le_transitive(keys[j], keys[n - 1], t);
                }
            }
        } else {
            lemma_lex_lt_or_ge(keys.last(), t);
            assert forall|j: int| 0 <= j < seek_pos(keys, t) implies lex_lt(#[trigger] keys[j], t) by {
                assert(keys[j] == d[j]);
            }
            assert forall|j: int| seek_pos(keys, t) <= j < n implies lex_le(t, #[trigger] keys[j]) by {
                if j < n - 1 {
                    assert(keys[j] == d[j]);
                }
            }
        }
    }
}

/// With a `from` bound `k`, the first key a forward iterator yields is the
/// smallest key not below `k`; it yields none when there is no such key.
pub proof fn lemma_from_forward_starts_at_ceiling(keys: Seq<Seq<u8>>, k: Seq<u8>, pos: int)
    requires
        sorted(keys),
    ensures
        ({
            let v = IterView { from: Some(k), ..fresh(Direction::Forward) };
            let (_, p, b) = advance_model(keys, v, pos);
            &&& b == exists|i: int| 0 <= i < keys.len() && lex_le(k, #[trigger] keys[i])
            &&& b ==> 0 <= p < keys.len() && lex_le(k, keys[p])
            &&& b ==> forall|i: int|
                0 <= i < keys.len() && lex_le(k, #[trigger] keys[i]) ==> lex_le(keys[p], keys[i])
        }),
{
    reveal_with_fuel(drive, 3);
    lemma_seek_pos(keys, k);
    let sp = seek_pos(keys, k);
    assert forall|i: int| 0 <= i < keys.len() && lex_le(k, #[trigger] keys[i]) implies sp <= i
        && lex_le(keys[sp], keys[i]) by {
        if i < sp {
            lemma_lex_le_antisymmetric(k, keys[i]);
        } else {
            lemma_sorted_le(keys, sp, i);
        }
    }
    if sp < keys.len() {
        assert(lex_le(k, keys[sp]));
    }
}

/// With a `from` bound `k`, the first key a reverse iterator yields is the
/// greatest key not above `k`; it yields none when there is no such key.
pub proof fn lemma_from_reverse_starts_at_floor(keys: Seq<Seq<u8>>, k: Seq<u8>, pos: int)
    requires
        sorted(keys),
    ensures
        ({
            let v = IterView { direction: Direction::Reverse, from: Some(k), ..fresh(Direction::Forward) };
            let (_, p, b) = advance_model(keys, v, pos);
            &&& b == exists|i: int| 0 <= i < keys.len() && lex_le(#[trigger] keys[i], k)
            &&& b ==> 0 <= p < keys.len() && lex_le(keys[p], k)
            &&& b ==> forall|i: int|
                0 <= i < keys.len() && lex_le(#[trigger] keys[i], k) ==> lex_le(keys[i], keys[p])
        }),
{
    reveal_with_fuel(drive, 3);
    lemma_seek_pos(keys, k);
    let n = keys.len() as int;
    let sp = seek_pos(keys, k);
    if sp < n && lex_le(keys[sp], k) {
        assert forall|i: int| 0 <= i < n && lex_le(#[trigger] keys[i], k) implies lex_le(keys[i], keys[sp]) by {
            if i <= sp {
                lemma_sorted_le(keys, i, sp);
            } else {
                lemma_lex_le_antisymmetric(keys[sp], k);
                assert(lex_lt(keys[sp], keys[i]));
                lemma_lex_le_antisymmetric(keys[i], k);
            }
        }
    } else {
        // the target is the key just below the landing position
        let q = sp - 1;
        assert forall|i: int| 0 <= i < n && lex_le(#[trigger] keys[i], k) implies i <= q && lex_le(keys[i], keys[q]) by {
            if i >= sp {
                lemma_lex_le_antisymmetric(k, keys[i]);
                lemma_sorted_le(keys, sp, i);
            } else {
                lemma_sorted_le(keys, i, q);
            }
        }
        if q >= 0 {
            assert(lex_lt(keys[q], k));
        }
    }
}

/// The keys that start with `q` begin where a seek to `q` lands.
proof fn lemma_first_match(keys: Seq<Seq<u8>>, q: Seq<u8>)
    requires
        sorted(keys),
    ensures
        forall|i: int| 0 <= i < keys.len() && is_prefix(q, #[trigger] keys[i]) ==> seek_pos(keys, q) <= i
            && is_prefix(q, keys[seek_pos(keys, q)]),
{
    lemma_seek_pos(keys, q);
    let sp = seek_pos(keys, q);
    assert(q.subrange(0, q.len() as int) =~= q);
    assert forall|i: int| 0 <= i < keys.len() && is_prefix(q, #[trigger] keys[i]) implies sp <= i
        && is_prefix(q, keys[sp]) by {
        lemma_prefix_le(q, keys[i]);
        if i < sp {
            lemma_lex_le_antisymmetric(q, keys[i]);
        } else {
            lemma_sorted_le(keys, sp, i);
            lemma_prefix_interval(q, q, keys[sp], keys[i]);
        }
    }
}

/// Without a prefix bound, `last` puts the cursor on the greatest key within
/// the forward bounds, which is the last key a forward traversal yields, and
/// answers `false` exactly when no key is within them.
pub proof fn lemma_last_is_greatest_within_bounds(keys: Seq<Seq<u8>>, v: IterView, pos: int)
    requires
        sorted(keys),
        v.direction == Direction::Forward,
        v.phase == Phase::Idle,
        v.prefix is None,
    ensures
        ({
            let (_, p, b) = last_model(keys, v, pos);
            &&& b == exists|i: int| 0 <= i < keys.len() && accepts(v, #[trigger] keys[i])
            &&& b ==> 0 <= p < keys.len() && accepts(v, keys[p])
            &&& b ==> forall|i: int|
                0 <= i < keys.len() && accepts(v, #[trigger] keys[i]) ==> lex_le(keys[i], keys[p])
        }),
{
    reveal_with_fuel(drive, 3);
    let n = keys.len() as int;
    // the position `last` settles on
    let q = match v.to {
        None => n - 1,
        Some(t) => {
            lemma_seek_pos(keys, t);
            let sp = seek_pos(keys, t);
            if sp < n && lex_le(keys[sp], t) {
                sp
            } else {
                sp - 1
            }
        },
    };
    assert(last_model(keys, v, pos).1 == q);
    assert forall|i: int| 0 <= i < n && accepts(v, #[trigger] keys[i]) implies i <= q && accepts(
        v,
        keys[q],
    ) && lex_le(keys[i], keys[q]) by {
        if let Some(t) = v.to {
            let sp = seek_pos(keys, t);
            if i > q {
                if q == sp {
                    lemma_lex_le_antisymmetric(keys[sp], t);
                    assert(lex_lt(keys[sp], keys[i]));
                    lemma_lex_le_antisymmetric(keys[i], t);
                } else {
                    lemma_sorted_le(keys, sp, i);
                    lemma_lex_le_transitive(keys[sp], keys[i], t);
                }
            }
            if q != sp {
                assert(lex_lt(keys[q], t));
            }
        }
        lemma_sorted_le(keys, i, q);
        if let Some(f) = v.from {
            lemma_lex_le_transitive(f, keys[i], keys[q]);
        }
    }
}

proof fn lemma_scan_prefix(keys: Seq<Seq<u8>>, v: IterView, p: int, fuel: nat)
    requires
        sorted(keys),
        v.phase == Phase::ScanPrefix,
        v.prefix is Some,
        seek_pos(keys, v.prefix->0) <= p <= keys.len(),
        forall|j: int| seek_pos(keys, v.prefix->0) <= j < p ==> is_prefix(v.prefix->0, #[trigger] keys[j]),
        fuel >= keys.len() - p + 2,
    ensures
        ({
            let q = v.prefix->0;
            let (v2, s2) = resume_spec(v, key_at(keys, p));
            let (v3, r, b) = drive(keys, v2, p, s2, fuel);
            &&& v3 == with_phase(v, Phase::Idle)
            &&& b == exists|i: int| 0 <= i < keys.len() && is_prefix(q, #[trigger] keys[i])
            &&& b ==> 0 <= r < keys.len() && is_prefix(q, keys[r])
            &&& b ==> forall|i: int| 0 <= i < keys.len() && is_prefix(q, #[trigger] keys[i]) ==> i <= r
        }),
    decreases keys.len() - p,
{
    reveal_with_fuel(drive, 3);
    let q = v.prefix->0;
    let n = keys.len() as int;
    let sp = seek_pos(keys, q);
    lemma_seek_pos(keys, q);
    lemma_first_match(keys, q);
    if p < n && is_prefix(q, keys[p]) {
        lemma_scan_prefix(keys, v, p + 1, (fuel - 1) as nat);
    } else {
        assert(drive(keys, resume_spec(v, key_at(keys, p)).0, p, resume_spec(v, key_at(keys, p)).1, fuel).1 == p - 1);
        assert forall|i: int| 0 <= i < n && is_prefix(q, #[trigger] keys[i]) implies i <= p - 1 && p > sp by {
            if i >= p {
                if i > p {
                    if p > sp {
                        lemma_sorted_le(keys, p - 1, p);
                        lemma_sorted_le(keys, p, i);
                        lemma_prefix_interval(q, keys[p - 1], keys[p], keys[i]);
                    }
                }
            }
        }
        if p == sp && p > 0 {
            assert(lex_lt(keys[p - 1], q));
            if is_prefix(q, keys[p - 1]) {
                lemma_prefix_le(q, keys[p - 1]);
                lemma_lex_le_antisymmetric(q, keys[p - 1]);
            }
        }
    }
}

/// With a prefix bound `q`, `last` puts the cursor on the greatest key that
/// starts with `q`, and answers `false` exactly when no key does.
pub proof fn lemma_last_is_greatest_match(keys: Seq<Seq<u8>>, v: IterView, pos: int)
    requires
        sorted(keys),
        v.direction == Direction::Forward,
        v.phase == Phase::Idle,
        v.prefix is Some,
    ensures
        ({
            let q = v.prefix->0;
            let (_, p, b) = last_model(keys, v, pos);
            &&& b == exists|i: int| 0 <= i < keys.len() && is_prefix(q, #[trigger] keys[i])
            &&& b ==> 0 <= p < keys.len() && is_prefix(q, keys[p])
            &&& b ==> forall|i: int| 0 <= i < keys.len() && is_prefix(q, #[trigger] keys[i]) ==> i <= p
        }),
{
    let q = v.prefix->0;
    lemma_seek_pos(keys, q);
    let vs = with_phase(v, Phase::ScanPrefix);
    lemma_scan_prefix(keys, vs, seek_pos(keys, q), (keys.len() + 2) as nat);
}

/// Where the run of keys under `q` that begins at index `i` ends.
pub open spec fn run_end(keys: Seq<Seq<u8>>, q: Seq<u8>, i: int) -> int
    decreases keys.len() - i,
{
    if 0 <= i < keys.len() && is_prefix(q, keys[i]) {
        run_end(keys, q, i + 1)
    } else {
        i
    }
}

/// How many keys are not above `k`.
pub open spec fn count_not_above(keys: Seq<Seq<u8>>, k: Seq<u8>) -> int {
    let sp = seek_pos(keys, k);
    if sp < keys.len() && lex_le(keys[sp], k) {
        sp + 1
    } else {
        sp
    }
}

proof fn lemma_run_end(keys: Seq<Seq<u8>>, q: Seq<u8>, i: int)
    requires
        0 <= i <= keys.len(),
    ensures
        i <= run_end(keys, q, i) <= keys.len(),
        forall|j: int| i <= j < run_end(keys, q, i) ==> is_prefix(q, #[trigger] keys[j]),
        run_end(keys, q, i) < keys.len() ==> !is_prefix(q, keys[run_end(keys, q, i)]),
    decreases keys.len() - i,
{
    if i < keys.len() && is_prefix(q, keys[i]) {
        lemma_run_end(keys, q, i + 1);
    }
}

/// The keys under `q` are exactly those from the landing position of a seek
/// to `q` to the end of the run that begins there.
proof fn lemma_prefix_run(keys: Seq<Seq<u8>>, q: Seq<u8>)
    requires
        sorted(keys),
    ensures
        seek_pos(keys, q) <= run_end(keys, q, seek_pos(keys, q)) <= keys.len(),
        forall|i: int|
            0 <= i < keys.len() ==> (is_prefix(q, #[trigger] keys[i]) <==> seek_pos(keys, q) <= i
                < run_end(keys, q, seek_pos(keys, q))),
{
    lemma_seek_pos(keys, q);
    lemma_first_match(keys, q);
    let sp = seek_pos(keys, q);
    lemma_run_end(keys, q, sp);
    let e = run_end(keys, q, sp);
    assert forall|i: int| 0 <= i < keys.len() && is_prefix(q, #[trigger] keys[i]) implies i < e by {
        if i > e && e > sp {
            lemma_sorted_le(keys, e - 1, e);
            lemma_sorted_le(keys, e, i);
            lemma_prefix_interval(q, keys[e - 1], keys[e], keys[i]);
        }
    }
}

proof fn lemma_forward_run(keys: Seq<Seq<u8>>, v: IterView, p: int, e: int, fuel: nat)
    requires
        v.direction == Direction::Forward,
        v.traversal == Traversal::Started,
        v.phase == Phase::Idle,
        0 <= p < e <= keys.len(),
        forall|j: int| p < j < e ==> accepts(v, #[trigger] keys[j]),
        e < keys.len() ==> !accepts(v, keys[e]),
        fuel >= e - p,
    ensures
        yields(keys, v, p, fuel) == keys.subrange(p + 1, e),
    decreases e - p,
{
    reveal_with_fuel(drive, 3);
    let (v1, p1, b) = advance_model(keys, v, p);
    assert(p1 == p + 1);
    assert(v1 == v);
    if p + 1 < e {
        assert(accepts(v, keys[p + 1]));
        lemma_forward_run(keys, v, p + 1, e, (fuel - 1) as nat);
        assert(keys.subrange(p + 1, e) =~= seq![keys[p + 1]] + keys.subrange(p + 2, e));
    } else {
        assert(keys.subrange(p + 1, e) =~= Seq::<Seq<u8>>::empty());
    }
}

proof fn lemma_reverse_run(keys: Seq<Seq<u8>>, v: IterView, p: int, s: int, fuel: nat)
    requires
        v.direction == Direction::Reverse,
        v.traversal == Traversal::Started,
        v.phase == Phase::Idle,
        -1 <= s < p < keys.len(),
        forall|j: int| s < j < p ==> accepts(v, #[trigger] keys[j]),
        s >= 0 ==> !accepts(v, keys[s]),
        fuel >= p - s,
    ensures
        yields(keys, v, p, fuel) == keys.subrange(s + 1, p).reverse(),
    decreases p - s,
{
    reveal_with_fuel(drive, 3);
    let (v1, p1, b) = advance_model(keys, v, p);
    assert(p1 == p - 1);
    assert(v1 == v);
    if p - 1 > s {
        assert(accepts(v, keys[p - 1]));
        lemma_reverse_run(keys, v, p - 1, s, (fuel - 1) as nat);
        assert(keys.subrange(s + 1, p).reverse() =~= seq![keys[p - 1]] + keys.subrange(s + 1, p - 1).reverse());
    } else {
        assert(keys.subrange(s + 1, p).reverse() =~= Seq::<Seq<u8>>::empty());
    }
}

/// A forward traversal with a `to` bound `k` yields, in ascending order,
/// exactly the keys not above `k`; it is empty exactly when there is none,
/// and otherwise ends at the greatest of them.
pub proof fn lemma_to_forward_traversal(keys: Seq<Seq<u8>>, k: Seq<u8>, pos: int)
    requires
        sorted(keys),
    ensures
        ({
            let v = IterView { to: Some(k), ..fresh(Direction::Forward) };
            let s = yields(keys, v, move_cursor(keys, v, pos, CursorOp::SeekToFirst), keys.len() + 1);
            let e = count_not_above(keys, k);
            &&& 0 <= e <= keys.len()
            &&& s == keys.subrange(0, e)
            &&& forall|i: int| 0 <= i < keys.len() ==> (i < e <==> lex_le(#[trigger] keys[i], k))
            &&& s.len() > 0 <==> exists|i: int| 0 <= i < keys.len() && lex_le(#[trigger] keys[i], k)
            &&& s.len() > 0 ==> forall|i: int|
                0 <= i < keys.len() && lex_le(#[trigger] keys[i], k) ==> lex_le(keys[i], s.last())
        }),
{
    reveal_with_fuel(drive, 3);
    lemma_seek_pos(keys, k);
    let n = keys.len() as int;
    let v = IterView { to: Some(k), ..fresh(Direction::Forward) };
    let sp = seek_pos(keys, k);
    let e = count_not_above(keys, k);
    assert forall|i: int| 0 <= i < n implies (i < e <==> lex_le(#[trigger] keys[i], k)) by {
        if i >= e && lex_le(keys[i], k) {
            if e == sp + 1 {
                lemma_lex_le_antisymmetric(keys[sp], k);
                assert(lex_lt(keys[sp], keys[i]));
                lemma_lex_le_antisymmetric(keys[i], k);
            } else {
                lemma_sorted_le(keys, sp, i);
                lemma_lex_le_transitive(keys[sp], keys[i], k);
            }
        }
    }
    let vs = IterView { traversal: Traversal::Started, ..v };
    if e > 0 {
        assert(lex_le(keys[0], k));
        lemma_forward_run(keys, vs, 0, e, n as nat);
        assert(keys.subrange(0, e) =~= seq![keys[0]] + keys.subrange(1, e));
        assert forall|i: int| 0 <= i < n && lex_le(#[trigger] keys[i], k) implies lex_le(
            keys[i],
            keys[e - 1],
        ) by {
            lemma_sorted_le(keys, i, e - 1);
        }
    } else {
        if n > 0 {
            assert(!lex_le(keys[0], k));
        }
        assert(keys.subrange(0, e) =~= Seq::<Seq<u8>>::empty());
    }
}

/// A reverse traversal with a `to` bound `k` yields, in descending order,
/// exactly the keys not below `k`; it is empty exactly when there is none,
/// and otherwise ends at the smallest of them.
pub proof fn lemma_to_reverse_traversal(keys: Seq<Seq<u8>>, k: Seq<u8>, pos: int)
    requires
        sorted(keys),
    ensures
        ({
            let v = IterView { direction: Direction::Reverse, to: Some(k), ..fresh(Direction::Forward) };
            let s = yields(keys, v, move_cursor(keys, v, pos, CursorOp::SeekToLast), keys.len() + 1);
            let sp = seek_pos(keys, k);
            &&& 0 <= sp <= keys.len()
            &&& s == keys.subrange(sp, keys.len() as int).reverse()
            &&& forall|i: int| 0 <= i < keys.len() ==> (sp <= i <==> lex_le(k, #[trigger] keys[i]))
            &&& s.len() > 0 <==> exists|i: int| 0 <= i < keys.len() && lex_le(k, #[trigger] keys[i])
            &&& s.len() > 0 ==> forall|i: int|
                0 <= i < keys.len() && lex_le(k, #[trigger] keys[i]) ==> lex_le(s.last(), keys[i])
        }),
{
    reveal_with_fuel(drive, 3);
    lemma_seek_pos(keys, k);
    let n = keys.len() as int;
    let v = IterView { direction: Direction::Reverse, to: Some(k), ..fresh(Direction::Forward) };
    let sp = seek_pos(keys, k);
    assert forall|i: int| 0 <= i < n implies (sp <= i <==> lex_le(k, #[trigger] keys[i])) by {
        if i < sp && lex_le(k, keys[i]) {
            lemma_lex_le_antisymmetric(k, keys[i]);
        }
    }
    let vs = IterView { traversal: Traversal::Started, ..v };
    if sp < n {
        lemma_reverse_run(keys, vs, n - 1, sp - 1, n as nat);
        assert(keys.subrange(sp, n).reverse() =~= seq![keys[n - 1]] + keys.subrange(sp, n - 1).reverse());
        assert forall|i: int| 0 <= i < n && lex_le(k, #[trigger] keys[i]) implies lex_le(keys[sp], keys[i]) by {
            lemma_sorted_le(keys, sp, i);
        }
        assert(keys.subrange(sp, n).reverse().last() == keys[sp]);
    } else {
        assert(keys.subrange(sp, n).reverse() =~= Seq::<Seq<u8>>::empty());
    }
}

/// A forward traversal with a prefix bound `q`, whatever `from` and `to`
/// say, yields in ascending order exactly the keys that start with `q`.
pub proof fn lemma_prefix_forward_traversal(
    keys: Seq<Seq<u8>>,
    q: Seq<u8>,
    from: Option<Seq<u8>>,
    to: Option<Seq<u8>>,
    pos: int,
)
    requires
        sorted(keys),
    ensures
        ({
            let v = IterView { prefix: Some(q), from, to, ..fresh(Direction::Forward) };
            let sp = seek_pos(keys, q);
            let e = run_end(keys, q, sp);
            &&& yields(keys, v, pos, keys.len() + 1) == keys.subrange(sp, e)
            &&& forall|i: int| 0 <= i < keys.len() ==> (is_prefix(q, #[trigger] keys[i]) <==> sp <= i < e)
        }),
{
    reveal_with_fuel(drive, 3);
    lemma_prefix_run(keys, q);
    lemma_seek_pos(keys, q);
    let n = keys.len() as int;
    let v = IterView { prefix: Some(q), from, to, ..fresh(Direction::Forward) };
    let sp = seek_pos(keys, q);
    let e = run_end(keys, q, sp);
    if sp < e {
        assert(is_prefix(q, keys[sp]));
        let vs = IterView { traversal: Traversal::Started, ..v };
        lemma_forward_run(keys, vs, sp, e, n as nat);
        assert(keys.subrange(sp, e) =~= seq![keys[sp]] + keys.subrange(sp + 1, e));
    } else {
        if sp < n {
            assert(!is_prefix(q, keys[sp]));
        }
        assert(keys.subrange(sp, e) =~= Seq::<Seq<u8>>::empty());
    }
}

/// A reverse traversal with a prefix bound `q`, whatever `from` and `to`
/// say, yields in descending order exactly the keys that start with `q`.
pub proof fn lemma_prefix_reverse_traversal(
    keys: Seq<Seq<u8>>,
    q: Seq<u8>,
    from: Option<Seq<u8>>,
    to: Option<Seq<u8>>,
    pos: int,
)
    requires
        sorted(keys),
    ensures
        ({
            let v = IterView { direction: Direction::Reverse, prefix: Some(q), from, to, ..fresh(Direction::Forward) };
            let sp = seek_pos(keys, q);
            let e = run_end(keys, q, sp);
            &&& yields(keys, v, pos, keys.len() + 1) == keys.subrange(sp, e).reverse()
            &&& forall|i: int| 0 <= i < keys.len() ==> (is_prefix(q, #[trigger] keys[i]) <==> sp <= i < e)
        }),
{
    lemma_prefix_run(keys, q);
    lemma_seek_pos(keys, q);
    let n = keys.len() as int;
    let v = IterView { direction: Direction::Reverse, prefix: Some(q), from, to, ..fresh(Direction::Forward) };
    let sp = seek_pos(keys, q);
    let e = run_end(keys, q, sp);
    let vs = IterView { traversal: Traversal::Started, ..v };
    let v1 = with_phase(vs, Phase::ScanPrefix);
    lemma_scan_prefix(keys, v1, sp, (n + 2) as nat);
    reveal_with_fuel(drive, 2);
    let (v3, r, b) = advance_model(keys, v, pos);
    assert(v3 == vs);
    if sp < e {
        assert(is_prefix(q, keys[e - 1]));
        assert(r == e - 1);
        if sp > 0 {
            assert(!is_prefix(q, keys[sp - 1]));
        }
        lemma_reverse_run(keys, vs, e - 1, sp - 1, n as nat);
        assert(keys.subrange(sp, e).reverse() =~= seq![keys[e - 1]] + keys.subrange(sp, e - 1).reverse());
    } else {
        assert(keys.subrange(sp, e).reverse() =~= Seq::<Seq<u8>>::empty());
    }
}

/// Under a prefix bound, `from` and `to` change nothing a traversal yields,
/// in either direction.
pub proof fn lemma_prefix_ignores_from_and_to(
    keys: Seq<Seq<u8>>,
    q: Seq<u8>,
    from: Option<Seq<u8>>,
    to: Option<Seq<u8>>,
    direction: Direction,
    pos: int,
)
    requires
        sorted(keys),
    ensures
        yields(
            keys,
            IterView { direction, prefix: Some(q), from, to, ..fresh(Direction::Forward) },
            pos,
            keys.len() + 1,
        ) == yields(
            keys,
            IterView { direction, prefix: Some(q), ..fresh(Direction::Forward) },
            pos,
            keys.len() + 1,
        ),
{
    if direction == Direction::Forward {
        lemma_prefix_forward_traversal(keys, q, from, to, pos);
        lemma_prefix_forward_traversal(keys, q, None, None, pos);
    } else {
        lemma_prefix_reverse_traversal(keys, q, from, to, pos);
        lemma_prefix_reverse_traversal(keys, q, None, None, pos);
    }
}

} // verus!
