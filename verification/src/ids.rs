//! The identities the panels refer to the document by.
//!
//! The document hands out small integers for its objects, layers and
//! symbols; the panels only ever compare and order them.

use vstd::prelude::*;

verus! {

/// An object on the stage.
#[derive(Debug, Clone, Copy, PartialEq, Eq, PartialOrd, Ord, Hash, Structural)]
pub struct ObjectId(pub u64);

/// A layer of the timeline.
#[derive(Debug, Clone, Copy, PartialEq, Eq, PartialOrd, Ord, Hash, Structural)]
pub struct LayerId(pub u64);

/// A symbol in the document's library.
#[derive(Debug, Clone, Copy, PartialEq, Eq, PartialOrd, Ord, Hash, Structural)]
pub struct SymbolId(pub u64);

/// A light of the document's lighting rig.
#[derive(Debug, Clone, Copy, PartialEq, Eq, PartialOrd, Ord, Hash, Structural)]
pub struct LightId(pub u64);

} // verus!
