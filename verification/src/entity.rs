//! Entity identifiers.
//!
//! An entity is an opaque identifier with no behaviour of its own; all state
//! lives in components attached to it. Identifiers are indices into the
//! world's arena and are never reused within a run: retirement strips an
//! entity's components but keeps its slot.

use vstd::prelude::*;

verus! {

/// An opaque entity identifier.
#[derive(Clone, Copy, Debug, PartialEq, Eq, Structural, Hash)]
pub struct Entity {
    pub id: u64,
}

impl Entity {
    /// Builds the identifier with the given arena index.
    pub fn new(id: u64) -> (e: Entity)
        ensures
            e.id == id,
    {
        Entity { id }
    }
}

} // verus!
