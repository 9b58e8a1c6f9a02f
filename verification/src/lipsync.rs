//! The Lip Sync dialog's choices and answers.
//!
//! Animate's dialog asks three things: which sound, which mouth symbol, and
//! which layer the mouth goes on. The sound is the document's soundtrack; the
//! other two are picked from lists in which a choice that cannot be used is
//! shown greyed rather than hidden, so a missing mouth explains itself.

use vstd::prelude::*;

verus! {

/// A choice offered in the dialog.
#[derive(Debug, Clone, PartialEq)]
pub struct Choice {
    pub id: u64,
    pub name: String,
    /// A second line — a duration, a frame count, a warning.
    pub detail: String,
    /// Can this be chosen? A mouth symbol that is too short cannot.
    pub usable: bool,
}

/// What the user chose.
#[derive(Debug, Clone, Copy, PartialEq, Eq, Hash, Structural)]
pub struct LipSyncResponse {
    /// Run it.
    pub confirmed: bool,
    pub cancelled: bool,
    /// Make a placeholder mouth symbol to draw over.
    pub make_mouth: bool,
}

impl Default for LipSyncResponse {
    fn default() -> (r: Self)
        ensures
            !r.confirmed,
            !r.cancelled,
            !r.make_mouth,
    {
        LipSyncResponse { confirmed: false, cancelled: false, make_mouth: false }
    }
}

/// Can Sync be pressed? Only with a soundtrack to analyse, a mouth to key
/// and a layer to put it on.
pub fn ready_to_sync(has_track: bool, mouth: Option<u64>, layer: Option<u64>) -> (r: bool)
    ensures
        r == (has_track && mouth is Some && layer is Some),
{
    has_track && mouth.is_some() && layer.is_some()
}

/// Should the dialog offer to make a mouth symbol? When no mouth on offer
/// can be used — including when none is on offer at all.
pub fn offers_to_make_a_mouth(mouths: &[Choice]) -> (r: bool)
    ensures
        r == forall|i: int| 0 <= i < mouths@.len() ==> !(#[trigger] mouths@[i]).usable,
{
    let mut i: usize = 0;
    while i < mouths.len()
        invariant
            i <= mouths@.len(),
            forall|k: int| 0 <= k < i ==> !(#[trigger] mouths@[k]).usable,
        decreases mouths@.len() - i,
    {
        if mouths[i].usable {
            return false;
        }
        i = i + 1;
    }
    true
}

} // verus!
