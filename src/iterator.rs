//! The public iterators: entries, keys only or values only, each in both
//! directions.
//!
//! Every iterator drives a cursor of the store that the caller holds; see the
//! [`crate::bounded`] module for the protocol. The key-only and value-only
//! iterators follow exactly the same protocol as the entry iterators and
//! differ only in the half of each entry they hand out.
use vstd::prelude::*;
use crate::bounded::{
    advance_spec, fresh, last_spec, opt_view, resumable, resume_spec, valid_at, Bounded,
    CursorOp, Direction, IterView, Phase, Step, Traversal,
};

verus! {

/// The operations shared by every iterator of the crate. Turning an iterator
/// around changes its type, so `reverse` is a method of each type.
pub trait LevelDBIterator<'a>: Sized {
    spec fn state(&self) -> IterView;

    /// Whether the first `advance` is still to come.
    fn start(&self) -> (r: bool)
        ensures
            r == (self.state().traversal == Traversal::NotStarted),
    ;

    /// The validity check on the position whose key is `current`.
    fn valid(&self, current: Option<&[u8]>) -> (r: bool)
        ensures
            r == valid_at(self.state(), opt_view(current)),
    ;

    /// Begins moving to the next item; `current` is the key under the cursor.
    fn advance(&mut self, current: Option<&[u8]>) -> (r: Step)
        requires
            old(self).state().phase == Phase::Idle,
        ensures
            (final(self).state(), r) == advance_spec(old(self).state(), opt_view(current)),
    ;

    /// Continues the operation under way.
    fn resume(&mut self, current: Option<&[u8]>) -> (r: Step)
        requires
            resumable(old(self).state()),
        ensures
            (final(self).state(), r) == resume_spec(old(self).state(), opt_view(current)),
    ;

    fn from(self, key: &'a [u8]) -> (r: Self)
        requires
            self.state().traversal == Traversal::NotStarted,
        ensures
            r.state() == (IterView { from: Some(key@), ..self.state() }),
    ;

    fn to(self, key: &'a [u8]) -> (r: Self)
        requires
            self.state().traversal == Traversal::NotStarted,
        ensures
            r.state() == (IterView { to: Some(key@), ..self.state() }),
    ;

    fn prefix(self, key: &'a [u8]) -> (r: Self)
        requires
            self.state().traversal == Traversal::NotStarted,
        ensures
            r.state() == (IterView { prefix: Some(key@), ..self.state() }),
    ;

    fn from_key(&self) -> (r: Option<&'a [u8]>)
        ensures
            opt_view(r) == self.state().from,
    ;

    fn to_key(&self) -> (r: Option<&'a [u8]>)
        ensures
            opt_view(r) == self.state().to,
    ;

    fn prefix_key(&self) -> (r: Option<&'a [u8]>)
        ensures
            opt_view(r) == self.state().prefix,
    ;

    fn seek_to_first(&self) -> (r: CursorOp)
        ensures
            r == CursorOp::SeekToFirst,
    ;

    /// The movement to the last position: the `to` bound where there is one.
    fn seek_to_last(&self) -> (r: CursorOp)
        ensures
            r == (if self.state().to is Some {
                CursorOp::SeekTo
            } else {
                CursorOp::SeekToLast
            }),
    ;
}

/// An iterator over the entries of the store, in ascending key order.
pub struct Iterator<'a> {
    inner: Bounded<'a>,
}

impl<'a> View for Iterator<'a> {
    type V = IterView;

    closed spec fn view(&self) -> IterView {
        self.inner@
    }
}

impl<'a> Iterator<'a> {
    /// The iterator runs in its type's direction. Every constructor
    /// establishes this and every operation keeps it.
    pub open spec fn wf(&self) -> bool {
        self@.direction == Direction::Forward
    }

    /// A forward iterator without bounds for a cursor the caller has just
    /// created, with the movement that puts the cursor on its first edge.
    pub fn new() -> (r: (Iterator<'a>, CursorOp))
        ensures
            r.0@ == fresh(Direction::Forward),
            r.1 == CursorOp::SeekToFirst,
            r.0.wf(),
    {
        (Iterator { inner: Bounded::new(Direction::Forward) }, CursorOp::SeekToFirst)
    }

    /// Attaches an inclusive start bound; only before the first `advance`.
    pub fn from(self, key: &'a [u8]) -> (r: Self)
        requires
            self@.traversal == Traversal::NotStarted,
        ensures
            r@ == (IterView { from: Some(key@), ..self@ }),
            r.wf() == self.wf(),
    {
        let mut s = self;
        s.inner.set_from(key);
        s
    }

    /// Attaches an inclusive end bound; only before the first `advance`.
    pub fn to(self, key: &'a [u8]) -> (r: Self)
        requires
            self@.traversal == Traversal::NotStarted,
        ensures
            r@ == (IterView { to: Some(key@), ..self@ }),
            r.wf() == self.wf(),
    {
        let mut s = self;
        s.inner.set_to(key);
        s
    }

    /// Attaches a prefix bound, which overrides `from` and `to`; only before
    /// the first `advance`.
    pub fn prefix(self, key: &'a [u8]) -> (r: Self)
        requires
            self@.traversal == Traversal::NotStarted,
        ensures
            r@ == (IterView { prefix: Some(key@), ..self@ }),
            r.wf() == self.wf(),
    {
        let mut s = self;
        s.inner.set_prefix(key);
        s
    }

    pub fn from_key(&self) -> (r: Option<&'a [u8]>)
        ensures
            opt_view(r) == self@.from,
    {
        self.inner.from_key()
    }

    pub fn to_key(&self) -> (r: Option<&'a [u8]>)
        ensures
            opt_view(r) == self@.to,
    {
        self.inner.to_key()
    }

    pub fn prefix_key(&self) -> (r: Option<&'a [u8]>)
        ensures
            opt_view(r) == self@.prefix,
    {
        self.inner.prefix_key()
    }

    /// Whether the first `advance` is still to come.
    pub fn start(&self) -> (r: bool)
        ensures
            r == (self@.traversal == Traversal::NotStarted),
    {
        self.inner.traversal() == Traversal::NotStarted
    }

    /// The validity check on the position whose key is `current`.
    pub fn valid(&self, current: Option<&[u8]>) -> (r: bool)
        ensures
            r == valid_at(self@, opt_view(current)),
    {
        self.inner.valid(current)
    }

    /// Begins moving to the next item; `current` is the key under the cursor.
    pub fn advance(&mut self, current: Option<&[u8]>) -> (r: Step)
        requires
            old(self)@.phase == Phase::Idle,
        ensures
            (final(self)@, r) == advance_spec(old(self)@, opt_view(current)),
            final(self).wf() == old(self).wf(),
    {
        self.inner.advance(current)
    }

    /// Continues the operation under way; `current` is the key under the
    /// cursor after the movement last asked for.
    pub fn resume(&mut self, current: Option<&[u8]>) -> (r: Step)
        requires
            resumable(old(self)@),
        ensures
            (final(self)@, r) == resume_spec(old(self)@, opt_view(current)),
            final(self).wf() == old(self).wf(),
    {
        self.inner.resume(current)
    }

    pub fn seek_to_first(&self) -> (r: CursorOp)
        ensures
            r == CursorOp::SeekToFirst,
    {
        CursorOp::SeekToFirst
    }

    /// The movement to the last position: the `to` bound where there is one.
    pub fn seek_to_last(&self) -> (r: CursorOp)
        ensures
            r == (if self@.to is Some { CursorOp::SeekTo } else { CursorOp::SeekToLast }),
    {
        if self.to_key().is_some() {
            CursorOp::SeekTo
        } else {
            CursorOp::SeekToLast
        }
    }

    /// The same iterator in the opposite direction. Before the first
    /// `advance` the cursor must first be moved to the opposite edge: that
    /// movement comes back with it.
    pub fn reverse(self) -> (r: (RevIterator<'a>, Option<CursorOp>))
        requires
            self@.phase == Phase::Idle,
        ensures
            r.0@ == (IterView { direction: Direction::Reverse, ..self@ }),
            r.1 == (if self@.traversal == Traversal::NotStarted {
                Some(CursorOp::SeekToLast)
            } else {
                None
            }),
            r.0.wf(),
    {
        let mut inner = self.inner;
        let op = if inner.traversal() == Traversal::NotStarted {
            Some(CursorOp::SeekToLast)
        } else {
            None
        };
        inner.set_direction(Direction::Reverse);
        (RevIterator { inner }, op)
    }

    /// Begins moving the cursor to the greatest key within the bounds: the
    /// last item that a full traversal would yield.
    pub fn last(&mut self) -> (r: Step)
        requires
            old(self)@.phase == Phase::Idle,
        ensures
            (final(self)@, r) == last_spec(old(self)@),
            final(self).wf() == old(self).wf(),
    {
        self.inner.last()
    }
}

/// An iterator over the entries of the store, in descending key order.
pub struct RevIterator<'a> {
    inner: Bounded<'a>,
}

impl<'a> View for RevIterator<'a> {
    type V = IterView;

    closed spec fn view(&self) -> IterView {
        self.inner@
    }
}

impl<'a> RevIterator<'a> {
    /// The iterator runs in its type's direction. Every constructor
    /// establishes this and every operation keeps it.
    pub open spec fn wf(&self) -> bool {
        self@.direction == Direction::Reverse
    }

    /// Attaches an inclusive start bound; only before the first `advance`.
    pub fn from(self, key: &'a [u8]) -> (r: Self)
        requires
            self@.traversal == Traversal::NotStarted,
        ensures
            r@ == (IterView { from: Some(key@), ..self@ }),
            r.wf() == self.wf(),
    {
        let mut s = self;
        s.inner.set_from(key);
        s
    }

    /// Attaches an inclusive end bound; only before the first `advance`.
    pub fn to(self, key: &'a [u8]) -> (r: Self)
        requires
            self@.traversal == Traversal::NotStarted,
        ensures
            r@ == (IterView { to: Some(key@), ..self@ }),
            r.wf() == self.wf(),
    {
        let mut s = self;
        s.inner.set_to(key);
        s
    }

    /// Attaches a prefix bound, which overrides `from` and `to`; only before
    /// the first `advance`.
    pub fn prefix(self, key: &'a [u8]) -> (r: Self)
        requires
            self@.traversal == Traversal::NotStarted,
        ensures
            r@ == (IterView { prefix: Some(key@), ..self@ }),
            r.wf() == self.wf(),
    {
        let mut s = self;
        s.inner.set_prefix(key);
        s
    }

    pub fn from_key(&self) -> (r: Option<&'a [u8]>)
        ensures
            opt_view(r) == self@.from,
    {
        self.inner.from_key()
    }

    pub fn to_key(&self) -> (r: Option<&'a [u8]>)
        ensures
            opt_view(r) == self@.to,
    {
        self.inner.to_key()
    }

    pub fn prefix_key(&self) -> (r: Option<&'a [u8]>)
        ensures
            opt_view(r) == self@.prefix,
    {
        self.inner.prefix_key()
    }

    /// Whether the first `advance` is still to come.
    pub fn start(&self) -> (r: bool)
        ensures
            r == (self@.traversal == Traversal::NotStarted),
    {
        self.inner.traversal() == Traversal::NotStarted
    }

    /// The validity check on the position whose key is `current`.
    pub fn valid(&self, current: Option<&[u8]>) -> (r: bool)
        ensures
            r == valid_at(self@, opt_view(current)),
    {
        self.inner.valid(current)
    }

    /// Begins moving to the next item; `current` is the key under the cursor.
    pub fn advance(&mut self, current: Option<&[u8]>) -> (r: Step)
        requires
            old(self)@.phase == Phase::Idle,
        ensures
            (final(self)@, r) == advance_spec(old(self)@, opt_view(current)),
            final(self).wf() == old(self).wf(),
    {
        self.inner.advance(current)
    }

    /// Continues the operation under way; `current` is the key under the
    /// cursor after the movement last asked for.
    pub fn resume(&mut self, current: Option<&[u8]>) -> (r: Step)
        requires
            resumable(old(self)@),
        ensures
            (final(self)@, r) == resume_spec(old(self)@, opt_view(current)),
            final(self).wf() == old(self).wf(),
    {
        self.inner.resume(current)
    }

    pub fn seek_to_first(&self) -> (r: CursorOp)
        ensures
            r == CursorOp::SeekToFirst,
    {
        CursorOp::SeekToFirst
    }

    /// The movement to the last position: the `to` bound where there is one.
    pub fn seek_to_last(&self) -> (r: CursorOp)
        ensures
            r == (if self@.to is Some { CursorOp::SeekTo } else { CursorOp::SeekToLast }),
    {
        if self.to_key().is_some() {
            CursorOp::SeekTo
        } else {
            CursorOp::SeekToLast
        }
    }

    /// The same iterator in the opposite direction. Before the first
    /// `advance` the cursor must first be moved to the opposite edge: that
    /// movement comes back with it.
    pub fn reverse(self) -> (r: (Iterator<'a>, Option<CursorOp>))
        requires
            self@.phase == Phase::Idle,
        ensures
            r.0@ == (IterView { direction: Direction::Forward, ..self@ }),
            r.1 == (if self@.traversal == Traversal::NotStarted {
                Some(CursorOp::SeekToFirst)
            } else {
                None
            }),
            r.0.wf(),
    {
        let mut inner = self.inner;
        let op = if inner.traversal() == Traversal::NotStarted {
            Some(CursorOp::SeekToFirst)
        } else {
            None
        };
        inner.set_direction(Direction::Forward);
        (Iterator { inner }, op)
    }
}

/// An iterator over the keys of the store, in ascending order.
pub struct KeyIterator<'a> {
    inner: Iterator<'a>,
}

impl<'a> View for KeyIterator<'a> {
    type V = IterView;

    closed spec fn view(&self) -> IterView {
        self.inner@
    }
}

impl<'a> KeyIterator<'a> {
    /// The iterator runs in its type's direction. Every constructor
    /// establishes this and every operation keeps it.
    pub open spec fn wf(&self) -> bool {
        self@.direction == Direction::Forward
    }

    /// A key iterator without bounds for a cursor the caller has just
    /// created, with the movement that puts the cursor on its first edge.
    pub fn new() -> (r: (KeyIterator<'a>, CursorOp))
        ensures
            r.0@ == fresh(Direction::Forward),
            r.1 == CursorOp::SeekToFirst,
            r.0.wf(),
    {
        let (inner, op) = Iterator::new();
        (KeyIterator { inner }, op)
    }

    /// Attaches an inclusive start bound; only before the first `advance`.
    pub fn from(self, key: &'a [u8]) -> (r: Self)
        requires
            self@.traversal == Traversal::NotStarted,
        ensures
            r@ == (IterView { from: Some(key@), ..self@ }),
            r.wf() == self.wf(),
    {
        Self { inner: self.inner.from(key) }
    }

    /// Attaches an inclusive end bound; only before the first `advance`.
    pub fn to(self, key: &'a [u8]) -> (r: Self)
        requires
            self@.traversal == Traversal::NotStarted,
        ensures
            r@ == (IterView { to: Some(key@), ..self@ }),
            r.wf() == self.wf(),
    {
        Self { inner: self.inner.to(key) }
    }

    /// Attaches a prefix bound, which overrides `from` and `to`; only before
    /// the first `advance`.
    pub fn prefix(self, key: &'a [u8]) -> (r: Self)
        requires
            self@.traversal == Traversal::NotStarted,
        ensures
            r@ == (IterView { prefix: Some(key@), ..self@ }),
            r.wf() == self.wf(),
    {
        Self { inner: self.inner.prefix(key) }
    }

    pub fn from_key(&self) -> (r: Option<&'a [u8]>)
        ensures
            opt_view(r) == self@.from,
    {
        self.inner.from_key()
    }

    pub fn to_key(&self) -> (r: Option<&'a [u8]>)
        ensures
            opt_view(r) == self@.to,
    {
        self.inner.to_key()
    }

    pub fn prefix_key(&self) -> (r: Option<&'a [u8]>)
        ensures
            opt_view(r) == self@.prefix,
    {
        self.inner.prefix_key()
    }

    /// Whether the first `advance` is still to come.
    pub fn start(&self) -> (r: bool)
        ensures
            r == (self@.traversal == Traversal::NotStarted),
    {
        self.inner.start()
    }

    /// The validity check on the position whose key is `current`.
    pub fn valid(&self, current: Option<&[u8]>) -> (r: bool)
        ensures
            r == valid_at(self@, opt_view(current)),
    {
        self.inner.valid(current)
    }

    /// Begins moving to the next item; `current` is the key under the cursor.
    pub fn advance(&mut self, current: Option<&[u8]>) -> (r: Step)
        requires
            old(self)@.phase == Phase::Idle,
        ensures
            (final(self)@, r) == advance_spec(old(self)@, opt_view(current)),
            final(self).wf() == old(self).wf(),
    {
        self.inner.advance(current)
    }

    /// Continues the operation under way; `current` is the key under the
    /// cursor after the movement last asked for.
    pub fn resume(&mut self, current: Option<&[u8]>) -> (r: Step)
        requires
            resumable(old(self)@),
        ensures
            (final(self)@, r) == resume_spec(old(self)@, opt_view(current)),
            final(self).wf() == old(self).wf(),
    {
        self.inner.resume(current)
    }

    pub fn seek_to_first(&self) -> (r: CursorOp)
        ensures
            r == CursorOp::SeekToFirst,
    {
        CursorOp::SeekToFirst
    }

    /// The movement to the last position: the `to` bound where there is one.
    pub fn seek_to_last(&self) -> (r: CursorOp)
        ensures
            r == (if self@.to is Some { CursorOp::SeekTo } else { CursorOp::SeekToLast }),
    {
        if self.to_key().is_some() {
            CursorOp::SeekTo
        } else {
            CursorOp::SeekToLast
        }
    }

    /// The same iterator in the opposite direction. Before the first
    /// `advance` the cursor must first be moved to the opposite edge: that
    /// movement comes back with it.
    pub fn reverse(self) -> (r: (RevKeyIterator<'a>, Option<CursorOp>))
        requires
            self@.phase == Phase::Idle,
        ensures
            r.0@ == (IterView { direction: Direction::Reverse, ..self@ }),
            r.1 == (if self@.traversal == Traversal::NotStarted {
                Some(CursorOp::SeekToLast)
            } else {
                None
            }),
            r.0.wf(),
    {
        let (inner, op) = self.inner.reverse();
        (RevKeyIterator { inner }, op)
    }

    /// Begins moving the cursor to the greatest key within the bounds: the
    /// last item that a full traversal would yield.
    pub fn last(&mut self) -> (r: Step)
        requires
            old(self)@.phase == Phase::Idle,
        ensures
            (final(self)@, r) == last_spec(old(self)@),
            final(self).wf() == old(self).wf(),
    {
        self.inner.last()
    }

    /// The part of the entry `(key, value)` that this iterator yields.
    pub fn project(&self, key: Vec<u8>, value: Vec<u8>) -> (r: Vec<u8>)
        ensures
            r == key,
    {
        key
    }
}

/// An iterator over the keys of the store, in descending order.
pub struct RevKeyIterator<'a> {
    inner: RevIterator<'a>,
}

impl<'a> View for RevKeyIterator<'a> {
    type V = IterView;

    closed spec fn view(&self) -> IterView {
        self.inner@
    }
}

impl<'a> RevKeyIterator<'a> {
    /// The iterator runs in its type's direction. Every constructor
    /// establishes this and every operation keeps it.
    pub open spec fn wf(&self) -> bool {
        self@.direction == Direction::Reverse
    }

    /// Attaches an inclusive start bound; only before the first `advance`.
    pub fn from(self, key: &'a [u8]) -> (r: Self)
        requires
            self@.traversal == Traversal::NotStarted,
        ensures
            r@ == (IterView { from: Some(key@), ..self@ }),
            r.wf() == self.wf(),
    {
        Self { inner: self.inner.from(key) }
    }

    /// Attaches an inclusive end bound; only before the first `advance`.
    pub fn to(self, key: &'a [u8]) -> (r: Self)
        requires
            self@.traversal == Traversal::NotStarted,
        ensures
            r@ == (IterView { to: Some(key@), ..self@ }),
            r.wf() == self.wf(),
    {
        Self { inner: self.inner.to(key) }
    }

    /// Attaches a prefix bound, which overrides `from` and `to`; only before
    /// the first `advance`.
    pub fn prefix(self, key: &'a [u8]) -> (r: Self)
        requires
            self@.traversal == Traversal::NotStarted,
        ensures
            r@ == (IterView { prefix: Some(key@), ..self@ }),
            r.wf() == self.wf(),
    {
        Self { inner: self.inner.prefix(key) }
    }

    pub fn from_key(&self) -> (r: Option<&'a [u8]>)
        ensures
            opt_view(r) == self@.from,
    {
        self.inner.from_key()
    }

    pub fn to_key(&self) -> (r: Option<&'a [u8]>)
        ensures
            opt_view(r) == self@.to,
    {
        self.inner.to_key()
    }

    pub fn prefix_key(&self) -> (r: Option<&'a [u8]>)
        ensures
            opt_view(r) == self@.prefix,
    {
        self.inner.prefix_key()
    }

    /// Whether the first `advance` is still to come.
    pub fn start(&self) -> (r: bool)
        ensures
            r == (self@.traversal == Traversal::NotStarted),
    {
        self.inner.start()
    }

    /// The validity check on the position whose key is `current`.
    pub fn valid(&self, current: Option<&[u8]>) -> (r: bool)
        ensures
            r == valid_at(self@, opt_view(current)),
    {
        self.inner.valid(current)
    }

    /// Begins moving to the next item; `current` is the key under the cursor.
    pub fn advance(&mut self, current: Option<&[u8]>) -> (r: Step)
        requires
            old(self)@.phase == Phase::Idle,
        ensures
            (final(self)@, r) == advance_spec(old(self)@, opt_view(current)),
            final(self).wf() == old(self).wf(),
    {
        self.inner.advance(current)
    }

    /// Continues the operation under way; `current` is the key under the
    /// cursor after the movement last asked for.
    pub fn resume(&mut self, current: Option<&[u8]>) -> (r: Step)
        requires
            resumable(old(self)@),
        ensures
            (final(self)@, r) == resume_spec(old(self)@, opt_view(current)),
            final(self).wf() == old(self).wf(),
    {
        self.inner.resume(current)
    }

    pub fn seek_to_first(&self) -> (r: CursorOp)
        ensures
            r == CursorOp::SeekToFirst,
    {
        CursorOp::SeekToFirst
    }

    /// The movement to the last position: the `to` bound where there is one.
    pub fn seek_to_last(&self) -> (r: CursorOp)
        ensures
            r == (if self@.to is Some { CursorOp::SeekTo } else { CursorOp::SeekToLast }),
    {
        if self.to_key().is_some() {
            CursorOp::SeekTo
        } else {
            CursorOp::SeekToLast
        }
    }

    /// The same iterator in the opposite direction. Before the first
    /// `advance` the cursor must first be moved to the opposite edge: that
    /// movement comes back with it.
    pub fn reverse(self) -> (r: (KeyIterator<'a>, Option<CursorOp>))
        requires
            self@.phase == Phase::Idle,
        ensures
            r.0@ == (IterView { direction: Direction::Forward, ..self@ }),
            r.1 == (if self@.traversal == Traversal::NotStarted {
                Some(CursorOp::SeekToFirst)
            } else {
                None
            }),
            r.0.wf(),
    {
        let (inner, op) = self.inner.reverse();
        (KeyIterator { inner }, op)
    }

    /// The part of the entry `(key, value)` that this iterator yields.
    pub fn project(&self, key: Vec<u8>, value: Vec<u8>) -> (r: Vec<u8>)
        ensures
            r == key,
    {
        key
    }
}

/// An iterator over the values of the store, in ascending key order.
pub struct ValueIterator<'a> {
    inner: Iterator<'a>,
}

impl<'a> View for ValueIterator<'a> {
    type V = IterView;

    closed spec fn view(&self) -> IterView {
        self.inner@
    }
}

impl<'a> ValueIterator<'a> {
    /// The iterator runs in its type's direction. Every constructor
    /// establishes this and every operation keeps it.
    pub open spec fn wf(&self) -> bool {
        self@.direction == Direction::Forward
    }

    /// A value iterator without bounds for a cursor the caller has just
    /// created, with the movement that puts the cursor on its first edge.
    pub fn new() -> (r: (ValueIterator<'a>, CursorOp))
        ensures
            r.0@ == fresh(Direction::Forward),
            r.1 == CursorOp::SeekToFirst,
            r.0.wf(),
    {
        let (inner, op) = Iterator::new();
        (ValueIterator { inner }, op)
    }

    /// Attaches an inclusive start bound; only before the first `advance`.
    pub fn from(self, key: &'a [u8]) -> (r: Self)
        requires
            self@.traversal == Traversal::NotStarted,
        ensures
            r@ == (IterView { from: Some(key@), ..self@ }),
            r.wf() == self.wf(),
    {
        Self { inner: self.inner.from(key) }
    }

    /// Attaches an inclusive end bound; only before the first `advance`.
    pub fn to(self, key: &'a [u8]) -> (r: Self)
        requires
            self@.traversal == Traversal::NotStarted,
        ensures
            r@ == (IterView { to: Some(key@), ..self@ }),
            r.wf() == self.wf(),
    {
        Self { inner: self.inner.to(key) }
    }

    /// Attaches a prefix bound, which overrides `from` and `to`; only before
    /// the first `advance`.
    pub fn prefix(self, key: &'a [u8]) -> (r: Self)
        requires
            self@.traversal == Traversal::NotStarted,
        ensures
            r@ == (IterView { prefix: Some(key@), ..self@ }),
            r.wf() == self.wf(),
    {
        Self { inner: self.inner.prefix(key) }
    }

    pub fn from_key(&self) -> (r: Option<&'a [u8]>)
        ensures
            opt_view(r) == self@.from,
    {
        self.inner.from_key()
    }

    pub fn to_key(&self) -> (r: Option<&'a [u8]>)
        ensures
            opt_view(r) == self@.to,
    {
        self.inner.to_key()
    }

    pub fn prefix_key(&self) -> (r: Option<&'a [u8]>)
        ensures
            opt_view(r) == self@.prefix,
    {
        self.inner.prefix_key()
    }

    /// Whether the first `advance` is still to come.
    pub fn start(&self) -> (r: bool)
        ensures
            r == (self@.traversal == Traversal::NotStarted),
    {
        self.inner.start()
    }

    /// The validity check on the position whose key is `current`.
    pub fn valid(&self, current: Option<&[u8]>) -> (r: bool)
        ensures
            r == valid_at(self@, opt_view(current)),
    {
        self.inner.valid(current)
    }

    /// Begins moving to the next item; `current` is the key under the cursor.
    pub fn advance(&mut self, current: Option<&[u8]>) -> (r: Step)
        requires
            old(self)@.phase == Phase::Idle,
        ensures
            (final(self)@, r) == advance_spec(old(self)@, opt_view(current)),
            final(self).wf() == old(self).wf(),
    {
        self.inner.advance(current)
    }

    /// Continues the operation under way; `current` is the key under the
    /// cursor after the movement last asked for.
    pub fn resume(&mut self, current: Option<&[u8]>) -> (r: Step)
        requires
            resumable(old(self)@),
        ensures
            (final(self)@, r) == resume_spec(old(self)@, opt_view(current)),
            final(self).wf() == old(self).wf(),
    {
        self.inner.resume(current)
    }

    pub fn seek_to_first(&self) -> (r: CursorOp)
        ensures
            r == CursorOp::SeekToFirst,
    {
        CursorOp::SeekToFirst
    }

    /// The movement to the last position: the `to` bound where there is one.
    pub fn seek_to_last(&self) -> (r: CursorOp)
        ensures
            r == (if self@.to is Some { CursorOp::SeekTo } else { CursorOp::SeekToLast }),
    {
        if self.to_key().is_some() {
            CursorOp::SeekTo
        } else {
            CursorOp::SeekToLast
        }
    }

    /// The same iterator in the opposite direction. Before the first
    /// `advance` the cursor must first be moved to the opposite edge: that
    /// movement comes back with it.
    pub fn reverse(self) -> (r: (RevValueIterator<'a>, Option<CursorOp>))
        requires
            self@.phase == Phase::Idle,
        ensures
            r.0@ == (IterView { direction: Direction::Reverse, ..self@ }),
            r.1 == (if self@.traversal == Traversal::NotStarted {
                Some(CursorOp::SeekToLast)
            } else {
                None
            }),
            r.0.wf(),
    {
        let (inner, op) = self.inner.reverse();
        (RevValueIterator { inner }, op)
    }

    /// Begins moving the cursor to the greatest key within the bounds: the
    /// last item that a full traversal would yield.
    pub fn last(&mut self) -> (r: Step)
        requires
            old(self)@.phase == Phase::Idle,
        ensures
            (final(self)@, r) == last_spec(old(self)@),
            final(self).wf() == old(self).wf(),
    {
        self.inner.last()
    }

    /// The part of the entry `(key, value)` that this iterator yields.
    pub fn project(&self, key: Vec<u8>, value: Vec<u8>) -> (r: Vec<u8>)
        ensures
            r == value,
    {
        value
    }
}

/// An iterator over the values of the store, in descending key order.
pub struct RevValueIterator<'a> {
    inner: RevIterator<'a>,
}

impl<'a> View for RevValueIterator<'a> {
    type V = IterView;

    closed spec fn view(&self) -> IterView {
        self.inner@
    }
}

impl<'a> RevValueIterator<'a> {
    /// The iterator runs in its type's direction. Every constructor
    /// establishes this and every operation keeps it.
    pub open spec fn wf(&self) -> bool {
        self@.direction == Direction::Reverse
    }

    /// Attaches an inclusive start bound; only before the first `advance`.
    pub fn from(self, key: &'a [u8]) -> (r: Self)
        requires
            self@.traversal == Traversal::NotStarted,
        ensures
            r@ == (IterView { from: Some(key@), ..self@ }),
            r.wf() == self.wf(),
    {
        Self { inner: self.inner.from(key) }
    }

    /// Attaches an inclusive end bound; only before the first `advance`.
    pub fn to(self, key: &'a [u8]) -> (r: Self)
        requires
            self@.traversal == Traversal::NotStarted,
        ensures
            r@ == (IterView { to: Some(key@), ..self@ }),
            r.wf() == self.wf(),
    {
        Self { inner: self.inner.to(key) }
    }

    /// Attaches a prefix bound, which overrides `from` and `to`; only before
    /// the first `advance`.
    pub fn prefix(self, key: &'a [u8]) -> (r: Self)
        requires
            self@.traversal == Traversal::NotStarted,
        ensures
            r@ == (IterView { prefix: Some(key@), ..self@ }),
            r.wf() == self.wf(),
    {
        Self { inner: self.inner.prefix(key) }
    }

    pub fn from_key(&self) -> (r: Option<&'a [u8]>)
        ensures
            opt_view(r) == self@.from,
    {
        self.inner.from_key()
    }

    pub fn to_key(&self) -> (r: Option<&'a [u8]>)
        ensures
            opt_view(r) == self@.to,
    {
        self.inner.to_key()
    }

    pub fn prefix_key(&self) -> (r: Option<&'a [u8]>)
        ensures
            opt_view(r) == self@.prefix,
    {
        self.inner.prefix_key()
    }

    /// Whether the first `advance` is still to come.
    pub fn start(&self) -> (r: bool)
        ensures
            r == (self@.traversal == Traversal::NotStarted),
    {
        self.inner.start()
    }

    /// The validity check on the position whose key is `current`.
    pub fn valid(&self, current: Option<&[u8]>) -> (r: bool)
        ensures
            r == valid_at(self@, opt_view(current)),
    {
        self.inner.valid(current)
    }

    /// Begins moving to the next item; `current` is the key under the cursor.
    pub fn advance(&mut self, current: Option<&[u8]>) -> (r: Step)
        requires
            old(self)@.phase == Phase::Idle,
        ensures
            (final(self)@, r) == advance_spec(old(self)@, opt_view(current)),
            final(self).wf() == old(self).wf(),
    {
        self.inner.advance(current)
    }

    /// Continues the operation under way; `current` is the key under the
    /// cursor after the movement last asked for.
    pub fn resume(&mut self, current: Option<&[u8]>) -> (r: Step)
        requires
            resumable(old(self)@),
        ensures
            (final(self)@, r) == resume_spec(old(self)@, opt_view(current)),
            final(self).wf() == old(self).wf(),
    {
        self.inner.resume(current)
    }

    pub fn seek_to_first(&self) -> (r: CursorOp)
        ensures
            r == CursorOp::SeekToFirst,
    {
        CursorOp::SeekToFirst
    }

    /// The movement to the last position: the `to` bound where there is one.
    pub fn seek_to_last(&self) -> (r: CursorOp)
        ensures
            r == (if self@.to is Some { CursorOp::SeekTo } else { CursorOp::SeekToLast }),
    {
        if self.to_key().is_some() {
            CursorOp::SeekTo
        } else {
            CursorOp::SeekToLast
        }
    }

    /// The same iterator in the opposite direction. Before the first
    /// `advance` the cursor must first be moved to the opposite edge: that
    /// movement comes back with it.
    pub fn reverse(self) -> (r: (ValueIterator<'a>, Option<CursorOp>))
        requires
            self@.phase == Phase::Idle,
        ensures
            r.0@ == (IterView { direction: Direction::Forward, ..self@ }),
            r.1 == (if self@.traversal == Traversal::NotStarted {
                Some(CursorOp::SeekToFirst)
            } else {
                None
            }),
            r.0.wf(),
    {
        let (inner, op) = self.inner.reverse();
        (ValueIterator { inner }, op)
    }

    /// The part of the entry `(key, value)` that this iterator yields.
    pub fn project(&self, key: Vec<u8>, value: Vec<u8>) -> (r: Vec<u8>)
        ensures
            r == value,
    {
        value
    }
}

impl<'a> LevelDBIterator<'a> for Iterator<'a> {
    open spec fn state(&self) -> IterView {
        self@
    }

    fn start(&self) -> (r: bool) {
        Iterator::start(self)
    }

    fn valid(&self, current: Option<&[u8]>) -> (r: bool) {
        Iterator::valid(self, current)
    }

    fn advance(&mut self, current: Option<&[u8]>) -> (r: Step) {
        Iterator::advance(self, current)
    }

    fn resume(&mut self, current: Option<&[u8]>) -> (r: Step) {
        Iterator::resume(self, current)
    }

    fn from(self, key: &'a [u8]) -> (r: Self) {
        Iterator::from(self, key)
    }

    fn to(self, key: &'a [u8]) -> (r: Self) {
        Iterator::to(self, key)
    }

    fn prefix(self, key: &'a [u8]) -> (r: Self) {
        Iterator::prefix(self, key)
    }

    fn from_key(&self) -> (r: Option<&'a [u8]>) {
        Iterator::from_key(self)
    }

    fn to_key(&self) -> (r: Option<&'a [u8]>) {
        Iterator::to_key(self)
    }

    fn prefix_key(&self) -> (r: Option<&'a [u8]>) {
        Iterator::prefix_key(self)
    }

    fn seek_to_first(&self) -> (r: CursorOp) {
        Iterator::seek_to_first(self)
    }

    fn seek_to_last(&self) -> (r: CursorOp) {
        Iterator::seek_to_last(self)
    }
}

impl<'a> LevelDBIterator<'a> for RevIterator<'a> {
    open spec fn state(&self) -> IterView {
        self@
    }

    fn start(&self) -> (r: bool) {
        RevIterator::start(self)
    }

    fn valid(&self, current: Option<&[u8]>) -> (r: bool) {
        RevIterator::valid(self, current)
    }

    fn advance(&mut self, current: Option<&[u8]>) -> (r: Step) {
        RevIterator::advance(self, current)
    }

    fn resume(&mut self, current: Option<&[u8]>) -> (r: Step) {
        RevIterator::resume(self, current)
    }

    fn from(self, key: &'a [u8]) -> (r: Self) {
        RevIterator::from(self, key)
    }

    fn to(self, key: &'a [u8]) -> (r: Self) {
        RevIterator::to(self, key)
    }

    fn prefix(self, key: &'a [u8]) -> (r: Self) {
        RevIterator::prefix(self, key)
    }

    fn from_key(&self) -> (r: Option<&'a [u8]>) {
        RevIterator::from_key(self)
    }

    fn to_key(&self) -> (r: Option<&'a [u8]>) {
        RevIterator::to_key(self)
    }

    fn prefix_key(&self) -> (r: Option<&'a [u8]>) {
        RevIterator::prefix_key(self)
    }

    fn seek_to_first(&self) -> (r: CursorOp) {
        RevIterator::seek_to_first(self)
    }

    fn seek_to_last(&self) -> (r: CursorOp) {
        RevIterator::seek_to_last(self)
    }
}

impl<'a> LevelDBIterator<'a> for KeyIterator<'a> {
    open spec fn state(&self) -> IterView {
        self@
    }

    fn start(&self) -> (r: bool) {
        KeyIterator::start(self)
    }

    fn valid(&self, current: Option<&[u8]>) -> (r: bool) {
        KeyIterator::valid(self, current)
    }

    fn advance(&mut self, current: Option<&[u8]>) -> (r: Step) {
        KeyIterator::advance(self, current)
    }

    fn resume(&mut self, current: Option<&[u8]>) -> (r: Step) {
        KeyIterator::resume(self, current)
    }

    fn from(self, key: &'a [u8]) -> (r: Self) {
        KeyIterator::from(self, key)
    }

    fn to(self, key: &'a [u8]) -> (r: Self) {
        KeyIterator::to(self, key)
    }

    fn prefix(self, key: &'a [u8]) -> (r: Self) {
        KeyIterator::prefix(self, key)
    }

    fn from_key(&self) -> (r: Option<&'a [u8]>) {
        KeyIterator::from_key(self)
    }

    fn to_key(&self) -> (r: Option<&'a [u8]>) {
        KeyIterator::to_key(self)
    }

    fn prefix_key(&self) -> (r: Option<&'a [u8]>) {
        KeyIterator::prefix_key(self)
    }

    fn seek_to_first(&self) -> (r: CursorOp) {
        KeyIterator::seek_to_first(self)
    }

    fn seek_to_last(&self) -> (r: CursorOp) {
        KeyIterator::seek_to_last(self)
    }
}

impl<'a> LevelDBIterator<'a> for RevKeyIterator<'a> {
    open spec fn state(&self) -> IterView {
        self@
    }

    fn start(&self) -> (r: bool) {
        RevKeyIterator::start(self)
    }

    fn valid(&self, current: Option<&[u8]>) -> (r: bool) {
        RevKeyIterator::valid(self, current)
    }

    fn advance(&mut self, current: Option<&[u8]>) -> (r: Step) {
        RevKeyIterator::advance(self, current)
    }

    fn resume(&mut self, current: Option<&[u8]>) -> (r: Step) {
        RevKeyIterator::resume(self, current)
    }

    fn from(self, key: &'a [u8]) -> (r: Self) {
        RevKeyIterator::from(self, key)
    }

    fn to(self, key: &'a [u8]) -> (r: Self) {
        RevKeyIterator::to(self, key)
    }

    fn prefix(self, key: &'a [u8]) -> (r: Self) {
        RevKeyIterator::prefix(self, key)
    }

    fn from_key(&self) -> (r: Option<&'a [u8]>) {
        RevKeyIterator::from_key(self)
    }

    fn to_key(&self) -> (r: Option<&'a [u8]>) {
        RevKeyIterator::to_key(self)
    }

    fn prefix_key(&self) -> (r: Option<&'a [u8]>) {
        RevKeyIterator::prefix_key(self)
    }

    fn seek_to_first(&self) -> (r: CursorOp) {
        RevKeyIterator::seek_to_first(self)
    }

    fn seek_to_last(&self) -> (r: CursorOp) {
        RevKeyIterator::seek_to_last(self)
    }
}

impl<'a> LevelDBIterator<'a> for ValueIterator<'a> {
    open spec fn state(&self) -> IterView {
        self@
    }

    fn start(&self) -> (r: bool) {
        ValueIterator::start(self)
    }

    fn valid(&self, current: Option<&[u8]>) -> (r: bool) {
        ValueIterator::valid(self, current)
    }

    fn advance(&mut self, current: Option<&[u8]>) -> (r: Step) {
        ValueIterator::advance(self, current)
    }

    fn resume(&mut self, current: Option<&[u8]>) -> (r: Step) {
        ValueIterator::resume(self, current)
    }

    fn from(self, key: &'a [u8]) -> (r: Self) {
        ValueIterator::from(self, key)
    }

    fn to(self, key: &'a [u8]) -> (r: Self) {
        ValueIterator::to(self, key)
    }

    fn prefix(self, key: &'a [u8]) -> (r: Self) {
        ValueIterator::prefix(self, key)
    }

    fn from_key(&self) -> (r: Option<&'a [u8]>) {
        ValueIterator::from_key(self)
    }

    fn to_key(&self) -> (r: Option<&'a [u8]>) {
        ValueIterator::to_key(self)
    }

    fn prefix_key(&self) -> (r: Option<&'a [u8]>) {
        ValueIterator::prefix_key(self)
    }

    fn seek_to_first(&self) -> (r: CursorOp) {
        ValueIterator::seek_to_first(self)
    }

    fn seek_to_last(&self) -> (r: CursorOp) {
        ValueIterator::seek_to_last(self)
    }
}

impl<'a> LevelDBIterator<'a> for RevValueIterator<'a> {
    open spec fn state(&self) -> IterView {
        self@
    }

    fn start(&self) -> (r: bool) {
        RevValueIterator::start(self)
    }

    fn valid(&self, current: Option<&[u8]>) -> (r: bool) {
        RevValueIterator::valid(self, current)
    }

    fn advance(&mut self, current: Option<&[u8]>) -> (r: Step) {
        RevValueIterator::advance(self, current)
    }

    fn resume(&mut self, current: Option<&[u8]>) -> (r: Step) {
        RevValueIterator::resume(self, current)
    }

    fn from(self, key: &'a [u8]) -> (r: Self) {
        RevValueIterator::from(self, key)
    }

    fn to(self, key: &'a [u8]) -> (r: Self) {
        RevValueIterator::to(self, key)
    }

    fn prefix(self, key: &'a [u8]) -> (r: Self) {
        RevValueIterator::prefix(self, key)
    }

    fn from_key(&self) -> (r: Option<&'a [u8]>) {
        RevValueIterator::from_key(self)
    }

    fn to_key(&self) -> (r: Option<&'a [u8]>) {
        RevValueIterator::to_key(self)
    }

    fn prefix_key(&self) -> (r: Option<&'a [u8]>) {
        RevValueIterator::prefix_key(self)
    }

    fn seek_to_first(&self) -> (r: CursorOp) {
        RevValueIterator::seek_to_first(self)
    }

    fn seek_to_last(&self) -> (r: CursorOp) {
        RevValueIterator::seek_to_last(self)
    }
}

} // verus!
