//! The bound- and direction-aware traversal state machine shared by every
//! iterator of the crate.
//!
//! The store's cursor is driven by the caller. Each call here receives the key
//! under the cursor (`None` when the cursor is not valid) and answers with a
//! [`Step`]: either a cursor movement to perform, after which the caller
//! reports the new key through `resume`, or the final answer of the operation.
use vstd::prelude::*;
use crate::order::{bytes_le, has_prefix, is_prefix, lex_le};

verus! {

/// Traversal order.
#[derive(Clone, Copy, PartialEq, Eq, Structural, Debug)]
pub enum Direction {
    Forward,
    Reverse,
}

/// Whether the first bound-aware positioning has been applied.
#[derive(Clone, Copy, PartialEq, Eq, Structural, Debug)]
pub enum Traversal {
    NotStarted,
    Started,
}

/// A movement of the store's cursor. The three seeks go to the iterator's
/// `from`, `to` or `prefix` bound.
#[derive(Clone, Copy, PartialEq, Eq, Structural, Debug)]
pub enum CursorOp {
    SeekToFirst,
    SeekToLast,
    SeekFrom,
    SeekTo,
    SeekPrefix,
    Next,
    Prev,
}

/// What the caller does next.
#[derive(Clone, Copy, PartialEq, Eq, Structural, Debug)]
pub enum Step {
    /// Perform this movement, then report the new key through `resume`.
    Move(CursorOp),
    /// The operation is over: whether the cursor now stands on an item to yield.
    Done(bool),
}

/// Where an operation stands between two cursor movements.
#[derive(Clone, Copy, PartialEq, Eq, Structural, Debug)]
pub enum Phase {
    /// No operation is under way.
    Idle,
    /// The answer is the validity of the next reported position.
    Check,
    /// The cursor was sent to `from`; a reverse traversal may have to step back.
    SettleFrom,
    /// `last`: the cursor was sent to `to`; it may have landed past it.
    SettleTo,
    /// Walking to the end of the run of keys under `prefix`: for `last`, and
    /// to start a reverse traversal.
    ScanPrefix,
}

/// The abstract state of a [`Bounded`] iterator.
pub struct IterView {
    pub direction: Direction,
    pub traversal: Traversal,
    pub phase: Phase,
    pub from: Option<Seq<u8>>,
    pub to: Option<Seq<u8>>,
    pub prefix: Option<Seq<u8>>,
}

pub open spec fn opt_view(o: Option<&[u8]>) -> Option<Seq<u8>> {
    match o {
        Some(k) => Some(k@),
        None => None,
    }
}

/// The bound part of the validity check: does `key` lie within the bounds,
/// read in the iterator's direction? A prefix bound overrides `from` and `to`.
pub open spec fn accepts(v: IterView, key: Seq<u8>) -> bool {
    match v.prefix {
        Some(p) => is_prefix(p, key),
        None => {
            &&& match v.from {
                Some(f) => if v.direction == Direction::Forward {
                    lex_le(f, key)
                } else {
                    lex_le(key, f)
                },
                None => true,
            }
            &&& match v.to {
                Some(t) => if v.direction == Direction::Forward {
                    lex_le(key, t)
                } else {
                    lex_le(t, key)
                },
                None => true,
            }
        },
    }
}

/// The validity check: the cursor is valid and its key lies within the bounds.
pub open spec fn valid_at(v: IterView, current: Option<Seq<u8>>) -> bool {
    match current {
        Some(k) => accepts(v, k),
        None => false,
    }
}

/// The raw step of a direction.
pub open spec fn step_op(d: Direction) -> CursorOp {
    if d == Direction::Forward {
        CursorOp::Next
    } else {
        CursorOp::Prev
    }
}

pub open spec fn with_phase(v: IterView, phase: Phase) -> IterView {
    IterView { phase, ..v }
}

/// `advance` begun on an idle iterator whose cursor shows `current`.
/// A started iterator steps in its direction (never from an invalid cursor);
/// the first call seeks to `prefix` (in reverse, then walks to the last key
/// under it), else to `from`, else stays where the cursor was put at its edge.
pub open spec fn advance_spec(v: IterView, current: Option<Seq<u8>>) -> (IterView, Step) {
    if v.traversal == Traversal::Started {
        if current is Some {
            (with_phase(v, Phase::Check), Step::Move(step_op(v.direction)))
        } else {
            (v, Step::Done(false))
        }
    } else {
        let s = IterView { traversal: Traversal::Started, ..v };
        if v.prefix is Some {
            if v.direction == Direction::Forward {
                (with_phase(s, Phase::Check), Step::Move(CursorOp::SeekPrefix))
            } else {
                // a reverse traversal starts at the last key under the prefix
                (with_phase(s, Phase::ScanPrefix), Step::Move(CursorOp::SeekPrefix))
            }
        } else if v.from is Some {
            (with_phase(s, Phase::SettleFrom), Step::Move(CursorOp::SeekFrom))
        } else {
            (s, Step::Done(valid_at(s, current)))
        }
    }
}

/// Continues the operation under way once the cursor shows `current`.
pub open spec fn resume_spec(v: IterView, current: Option<Seq<u8>>) -> (IterView, Step) {
    let idle = with_phase(v, Phase::Idle);
    match v.phase {
        Phase::SettleFrom => if !valid_at(v, current) && v.direction == Direction::Reverse {
            // A seek lands on the first key not below `from`: a reverse
            // traversal starts one key earlier, or at the very last key when
            // the seek ran past the end.
            if current is Some {
                (with_phase(v, Phase::Check), Step::Move(CursorOp::Prev))
            } else {
                (with_phase(v, Phase::Check), Step::Move(CursorOp::SeekToLast))
            }
        } else {
            (idle, Step::Done(valid_at(v, current)))
        },
        Phase::SettleTo => match current {
            None => (with_phase(v, Phase::Check), Step::Move(CursorOp::SeekToLast)),
            Some(k) => if lex_le(k, v.to->0) {
                (idle, Step::Done(valid_at(v, current)))
            } else {
                (with_phase(v, Phase::Check), Step::Move(CursorOp::Prev))
            },
        },
        Phase::ScanPrefix => match current {
            None => (with_phase(v, Phase::Check), Step::Move(CursorOp::SeekToLast)),
            Some(k) => if is_prefix(v.prefix->0, k) {
                (v, Step::Move(CursorOp::Next))
            } else {
                (with_phase(v, Phase::Check), Step::Move(CursorOp::Prev))
            },
        },
        _ => (idle, Step::Done(valid_at(v, current))),
    }
}

/// `last` begun on an idle forward iterator: find the greatest key within the
/// bounds.
pub open spec fn last_spec(v: IterView) -> (IterView, Step) {
    if v.prefix is Some {
        (with_phase(v, Phase::ScanPrefix), Step::Move(CursorOp::SeekPrefix))
    } else if v.to is Some {
        (with_phase(v, Phase::SettleTo), Step::Move(CursorOp::SeekTo))
    } else {
        (with_phase(v, Phase::Check), Step::Move(CursorOp::SeekToLast))
    }
}

/// The state of a fresh iterator without bounds.
pub open spec fn fresh(direction: Direction) -> IterView {
    IterView {
        direction,
        traversal: Traversal::NotStarted,
        phase: Phase::Idle,
        from: None,
        to: None,
        prefix: None,
    }
}

/// An operation is under way, and the bound it moves to is attached.
pub open spec fn resumable(v: IterView) -> bool {
    &&& v.phase != Phase::Idle
    &&& v.phase == Phase::SettleTo ==> v.to is Some
    &&& v.phase == Phase::ScanPrefix ==> v.prefix is Some
}

/// An iterator's bounds, direction and traversal state.
pub struct Bounded<'a> {
    direction: Direction,
    traversal: Traversal,
    phase: Phase,
    from: Option<&'a [u8]>,
    to: Option<&'a [u8]>,
    prefix: Option<&'a [u8]>,
}

impl<'a> View for Bounded<'a> {
    type V = IterView;

    closed spec fn view(&self) -> IterView {
        IterView {
            direction: self.direction,
            traversal: self.traversal,
            phase: self.phase,
            from: opt_view(self.from),
            to: opt_view(self.to),
            prefix: opt_view(self.prefix),
        }
    }
}

fn key_within(key: &[u8], bound: Option<&[u8]>, below: bool) -> (r: bool)
    ensures
        r == match opt_view(bound) {
            Some(b) => if below { lex_le(key@, b) } else { lex_le(b, key@) },
            None => true,
        },
{
    match bound {
        Some(b) => if below {
            bytes_le(key, b)
        } else {
            bytes_le(b, key)
        },
        None => true,
    }
}

impl<'a> Bounded<'a> {
    /// A fresh iterator state without bounds.
    pub fn new(direction: Direction) -> (r: Bounded<'a>)
        ensures
            r@ == fresh(direction),
    {
        Bounded { direction, traversal: Traversal::NotStarted, phase: Phase::Idle, from: None, to: None, prefix: None }
    }

    pub fn direction(&self) -> (r: Direction)
        ensures
            r == self@.direction,
    {
        self.direction
    }

    /// Turns the iterator around, keeping bounds and traversal state.
    pub fn set_direction(&mut self, direction: Direction)
        requires
            old(self)@.phase == Phase::Idle,
        ensures
            final(self)@ == (IterView { direction, ..old(self)@ }),
    {
        self.direction = direction;
    }

    pub fn traversal(&self) -> (r: Traversal)
        ensures
            r == self@.traversal,
    {
        self.traversal
    }

    pub fn from_key(&self) -> (r: Option<&'a [u8]>)
        ensures
            opt_view(r) == self@.from,
    {
        self.from
    }

    pub fn to_key(&self) -> (r: Option<&'a [u8]>)
        ensures
            opt_view(r) == self@.to,
    {
        self.to
    }

    pub fn prefix_key(&self) -> (r: Option<&'a [u8]>)
        ensures
            opt_view(r) == self@.prefix,
    {
        self.prefix
    }

    /// Attaches an inclusive start bound.
    pub fn set_from(&mut self, key: &'a [u8])
        requires
            old(self)@.traversal == Traversal::NotStarted,
        ensures
            final(self)@ == (IterView { from: Some(key@), ..old(self)@ }),
    {
        self.from = Some(key);
    }

    /// Attaches an inclusive end bound.
    pub fn set_to(&mut self, key: &'a [u8])
        requires
            old(self)@.traversal == Traversal::NotStarted,
        ensures
            final(self)@ == (IterView { to: Some(key@), ..old(self)@ }),
    {
        self.to = Some(key);
    }

    /// Attaches a prefix bound.
    pub fn set_prefix(&mut self, key: &'a [u8])
        requires
            old(self)@.traversal == Traversal::NotStarted,
        ensures
            final(self)@ == (IterView { prefix: Some(key@), ..old(self)@ }),
    {
        self.prefix = Some(key);
    }

    /// The validity check on the position whose key is `current`.
    pub fn valid(&self, current: Option<&[u8]>) -> (r: bool)
        ensures
            r == valid_at(self@, opt_view(current)),
    {
        match current {
            None => false,
            Some(k) => match self.prefix {
                Some(p) => has_prefix(k, p),
                None => {
                    let forward = match self.direction {
                        Direction::Forward => true,
                        Direction::Reverse => false,
                    };
                    key_within(k, self.from, !forward) && key_within(k, self.to, forward)
                },
            },
        }
    }

    fn raw_step(&self) -> (r: CursorOp)
        ensures
            r == step_op(self@.direction),
    {
        match self.direction {
            Direction::Forward => CursorOp::Next,
            Direction::Reverse => CursorOp::Prev,
        }
    }

    /// Begins `advance`, with `current` the key under the cursor.
    pub fn advance(&mut self, current: Option<&[u8]>) -> (r: Step)
        requires
            old(self)@.phase == Phase::Idle,
        ensures
            (final(self)@, r) == advance_spec(old(self)@, opt_view(current)),
    {
        match self.traversal {
            Traversal::Started => {
                if current.is_some() {
                    self.phase = Phase::Check;
                    Step::Move(self.raw_step())
                } else {
                    Step::Done(false)
                }
            },
            Traversal::NotStarted => {
                self.traversal = Traversal::Started;
                if self.prefix.is_some() {
                    self.phase = match self.direction {
                        Direction::Forward => Phase::Check,
                        Direction::Reverse => Phase::ScanPrefix,
                    };
                    Step::Move(CursorOp::SeekPrefix)
                } else if self.from.is_some() {
                    self.phase = Phase::SettleFrom;
                    Step::Move(CursorOp::SeekFrom)
                } else {
                    Step::Done(self.valid(current))
                }
            },
        }
    }

    /// Continues the operation under way, with `current` the key under the
    /// cursor after the movement last asked for.
    pub fn resume(&mut self, current: Option<&[u8]>) -> (r: Step)
        requires
            resumable(old(self)@),
        ensures
            (final(self)@, r) == resume_spec(old(self)@, opt_view(current)),
    {
        match self.phase {
            Phase::SettleFrom => {
                let ok = self.valid(current);
                let reverse = match self.direction {
                    Direction::Forward => false,
                    Direction::Reverse => true,
                };
                if !ok && reverse {
                    self.phase = Phase::Check;
                    if current.is_some() {
                        Step::Move(CursorOp::Prev)
                    } else {
                        Step::Move(CursorOp::SeekToLast)
                    }
                } else {
                    self.phase = Phase::Idle;
                    Step::Done(ok)
                }
            },
            Phase::SettleTo => match current {
                None => {
                    self.phase = Phase::Check;
                    Step::Move(CursorOp::SeekToLast)
                },
                Some(k) => {
                    let t = self.to.unwrap();
                    if bytes_le(k, t) {
                        let ok = self.valid(current);
                        self.phase = Phase::Idle;
                        Step::Done(ok)
                    } else {
                        self.phase = Phase::Check;
                        Step::Move(CursorOp::Prev)
                    }
                },
            },
            Phase::ScanPrefix => match current {
                None => {
                    self.phase = Phase::Check;
                    Step::Move(CursorOp::SeekToLast)
                },
                Some(k) => {
                    let p = self.prefix.unwrap();
                    if has_prefix(k, p) {
                        Step::Move(CursorOp::Next)
                    } else {
                        self.phase = Phase::Check;
                        Step::Move(CursorOp::Prev)
                    }
                },
            },
            _ => {
                let ok = self.valid(current);
                self.phase = Phase::Idle;
                Step::Done(ok)
            },
        }
    }

    /// Begins `last`: positions the cursor on the greatest key within the
    /// forward bounds, if there is one.
    pub fn last(&mut self) -> (r: Step)
        requires
            old(self)@.phase == Phase::Idle,
        ensures
            (final(self)@, r) == last_spec(old(self)@),
    {
        if self.prefix.is_some() {
            self.phase = Phase::ScanPrefix;
            Step::Move(CursorOp::SeekPrefix)
        } else if self.to.is_some() {
            self.phase = Phase::SettleTo;
            Step::Move(CursorOp::SeekTo)
        } else {
            self.phase = Phase::Check;
            Step::Move(CursorOp::SeekToLast)
        }
    }
}

} // verus!
