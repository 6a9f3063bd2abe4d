//! A model of the store's cursor, and what the iterators yield when they
//! drive it.
//!
//! The store holds its keys in ascending lexicographic order. A cursor stands
//! at an index into them and is valid when that index is in range; a seek
//! lands on the first key that is not below its target.
use vstd::prelude::*;
use crate::bounded::{
    advance_spec, fresh, last_spec, resume_spec, CursorOp, Direction, IterView, Phase, Step,
    Traversal,
};
use crate::order::lex_lt;

verus! {

/// The keys ascend strictly.
pub open spec fn sorted(keys: Seq<Seq<u8>>) -> bool {
    forall|i: int, j: int| 0 <= i < j < keys.len() ==> lex_lt(#[trigger] keys[i], #[trigger] keys[j])
}

/// The key under a cursor at `pos`, if the cursor is valid.
pub open spec fn key_at(keys: Seq<Seq<u8>>, pos: int) -> Option<Seq<u8>> {
    if 0 <= pos < keys.len() {
        Some(keys[pos])
    } else {
        None
    }
}

/// Where a seek to `t` lands: the index of the first key not below `t`.
pub open spec fn seek_pos(keys: Seq<Seq<u8>>, t: Seq<u8>) -> int
    decreases keys.len(),
{
    if keys.len() == 0 {
        0
    } else if lex_lt(keys.last(), t) {
        keys.len() as int
    } else {
        seek_pos(keys.drop_last(), t)
    }
}

/// Where a movement takes the cursor; seeks go to the bounds of `v`.
pub open spec fn move_cursor(keys: Seq<Seq<u8>>, v: IterView, pos: int, op: CursorOp) -> int {
    match op {
        CursorOp::SeekToFirst => 0,
        CursorOp::SeekToLast => keys.len() - 1,
        CursorOp::SeekFrom => seek_pos(keys, v.from->0),
        CursorOp::SeekTo => seek_pos(keys, v.to->0),
        CursorOp::SeekPrefix => seek_pos(keys, v.prefix->0),
        CursorOp::Next => pos + 1,
        CursorOp::Prev => pos - 1,
    }
}

/// Performs the movements that an operation asks for, at most `fuel` of them,
/// and gives the final state, position and answer.
pub open spec fn drive(keys: Seq<Seq<u8>>, v: IterView, pos: int, s: Step, fuel: nat) -> (
    IterView,
    int,
    bool,
)
    decreases fuel,
{
    match s {
        Step::Done(b) => (v, pos, b),
        Step::Move(op) => if fuel == 0 {
            (v, pos, false)
        } else {
            let p = move_cursor(keys, v, pos, op);
            let (v2, s2) = resume_spec(v, key_at(keys, p));
            drive(keys, v2, p, s2, (fuel - 1) as nat)
        },
    }
}

/// One whole `advance` from position `pos`.
pub open spec fn advance_model(keys: Seq<Seq<u8>>, v: IterView, pos: int) -> (IterView, int, bool) {
    let (v1, s1) = advance_spec(v, key_at(keys, pos));
    drive(keys, v1, pos, s1, keys.len() + 3)
}

/// One whole `last` from position `pos`.
pub open spec fn last_model(keys: Seq<Seq<u8>>, v: IterView, pos: int) -> (IterView, int, bool) {
    let (v1, s1) = last_spec(v);
    drive(keys, v1, pos, s1, keys.len() + 3)
}

/// The keys that `fuel` calls of `advance` yield, from position `pos`.
pub open spec fn yields(keys: Seq<Seq<u8>>, v: IterView, pos: int, fuel: nat) -> Seq<Seq<u8>>
    decreases fuel,
{
    if fuel == 0 {
        Seq::empty()
    } else {
        let (v1, p1, b) = advance_model(keys, v, pos);
        if b {
            seq![keys[p1]] + yields(keys, v1, p1, (fuel - 1) as nat)
        } else {
            Seq::empty()
        }
    }
}

/// Over an empty store, whatever its bounds, direction and traversal state,
/// an iterator's `advance` yields nothing.
pub proof fn lemma_empty_store_yields_nothing(v: IterView, pos: int)
    requires
        v.phase == Phase::Idle,
    ensures
        !advance_model(Seq::empty(), v, pos).2,
{
    let keys = Seq::<Seq<u8>>::empty();
    reveal_with_fuel(drive, 3);
    let (v1, s1) = advance_spec(v, key_at(keys, pos));
    if let Step::Move(op) = s1 {
        let p = move_cursor(keys, v1, pos, op);
        let (v2, s2) = resume_spec(v1, key_at(keys, p));
        if let Step::Move(op2) = s2 {
            let p2 = move_cursor(keys, v2, p, op2);
            assert(key_at(keys, p2) is None);
        }
    }
}

proof fn lemma_forward_tail(keys: Seq<Seq<u8>>, v: IterView, p: int, fuel: nat)
    requires
        v == (IterView { traversal: Traversal::Started, ..fresh(Direction::Forward) }),
        0 <= p < keys.len(),
        fuel >= keys.len() - p,
    ensures
        yields(keys, v, p, fuel) == keys.subrange(p + 1, keys.len() as int),
    decreases keys.len() - p,
{
    reveal_with_fuel(drive, 3);
    let (v1, p1, b) = advance_model(keys, v, p);
    assert(p1 == p + 1);
    assert(v1 == v);
    if p + 1 < keys.len() {
        lemma_forward_tail(keys, v, p + 1, (fuel - 1) as nat);
        assert(keys.subrange(p + 1, keys.len() as int) =~= seq![keys[p + 1]] + keys.subrange(
            p + 2,
            keys.len() as int,
        ));
    } else {
        assert(keys.subrange(p + 1, keys.len() as int) =~= Seq::<Seq<u8>>::empty());
    }
}

proof fn lemma_reverse_tail(keys: Seq<Seq<u8>>, v: IterView, p: int, fuel: nat)
    requires
        v == (IterView { traversal: Traversal::Started, ..fresh(Direction::Reverse) }),
        0 <= p < keys.len(),
        fuel >= p + 1,
    ensures
        yields(keys, v, p, fuel) == keys.subrange(0, p).reverse(),
    decreases p,
{
    reveal_with_fuel(drive, 3);
    let (v1, p1, b) = advance_model(keys, v, p);
    assert(p1 == p - 1);
    assert(v1 == v);
    if p > 0 {
        lemma_reverse_tail(keys, v, p - 1, (fuel - 1) as nat);
        assert(keys.subrange(0, p).reverse() =~= seq![keys[p - 1]] + keys.subrange(
            0,
            p - 1,
        ).reverse());
    } else {
        assert(keys.subrange(0, p).reverse() =~= Seq::<Seq<u8>>::empty());
    }
}

/// A forward iterator without bounds, its cursor put on the first edge as
/// `Iterator::new` asks, yields every key of the store once, in ascending
/// order.
pub proof fn lemma_forward_visits_all(keys: Seq<Seq<u8>>, pos: int)
    requires
        sorted(keys),
    ensures
        ({
            let v = fresh(Direction::Forward);
            let s = yields(keys, v, move_cursor(keys, v, pos, CursorOp::SeekToFirst), keys.len() + 1);
            &&& s == keys
            &&& forall|i: int, j: int| 0 <= i < j < s.len() ==> lex_lt(#[trigger] s[i], #[trigger] s[j])
        }),
{
    reveal_with_fuel(drive, 3);
    let v = fresh(Direction::Forward);
    let (v1, p1, b) = advance_model(keys, v, 0);
    if keys.len() > 0 {
        lemma_forward_tail(keys, v1, 0, keys.len() as nat);
        assert(keys =~= seq![keys[0]] + keys.subrange(1, keys.len() as int));
    } else {
        assert(keys =~= Seq::<Seq<u8>>::empty());
    }
}

/// Reversing a forward iterator without bounds before its first `advance`
/// (the cursor moved as `reverse` asks) yields the forward traversal
/// backwards.
pub proof fn lemma_reverse_is_backwards(keys: Seq<Seq<u8>>, pos: int)
    requires
        sorted(keys),
    ensures
        ({
            let f = fresh(Direction::Forward);
            let r = IterView { direction: Direction::Reverse, ..f };
            yields(keys, r, move_cursor(keys, r, pos, CursorOp::SeekToLast), keys.len() + 1)
                == yields(keys, f, move_cursor(keys, f, pos, CursorOp::SeekToFirst), keys.len() + 1).reverse()
        }),
{
    reveal_with_fuel(drive, 3);
    lemma_forward_visits_all(keys, pos);
    let f = fresh(Direction::Forward);
    let r = IterView { direction: Direction::Reverse, ..f };
    let n = keys.len() as int;
    let (v1, p1, b) = advance_model(keys, r, n - 1);
    if n > 0 {
        lemma_reverse_tail(keys, v1, n - 1, n as nat);
        assert(keys.reverse() =~= seq![keys[n - 1]] + keys.subrange(0, n - 1).reverse());
    } else {
        assert(keys.reverse() =~= Seq::<Seq<u8>>::empty());
    }
}

} // verus!
