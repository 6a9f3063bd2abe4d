//! Bounded, reversible iteration over an ordered key-value store.
//!
//! The store's own cursor stays with the caller: the iterators here decide
//! which cursor movement comes next and which positions are yielded, and the
//! caller performs each movement and reports back the key under the cursor.
use vstd::prelude::*;

pub mod bounded;
pub mod iterator;
pub mod laws;
pub mod model;
pub mod options;
pub mod order;

verus! {

} // verus!
