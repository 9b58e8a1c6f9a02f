//! What the Cast panel remembers: the characters a film is made from, kept
//! as assets under one folder so that they outlive it.
//!
//! Like every panel here it raises intentions and performs nothing; what it
//! decides for itself is which sheet is open and which names the search lets
//! through.

use std::path::PathBuf;
use vstd::prelude::*;

use crate::text::{lowercase_of, name_matches_search, search_matches_spec, trimmed};

verus! {

/// The folder, under the asset library root, that holds the cast: a
/// character is an asset with a person in it, and filing them under one
/// folder is what tells a character apart from a lamp-post.
pub const CAST_FOLDER: &'static str = "Cast";

/// Panel state that is neither the document's nor the library's.
#[derive(Debug)]
pub struct CastPanelState {
    /// The character whose sheet is open, by the asset's path on disk.
    pub open: Option<PathBuf>,
    /// Free-text filter over character names.
    pub search: String,
    /// A rename in progress, by path and the text being typed.
    pub renaming: Option<(PathBuf, String)>,
    /// A character whose deletion is armed but not confirmed: the first
    /// Delete arms and the second removes it.
    pub confirm_delete: Option<PathBuf>,
}

impl Default for CastPanelState {
    fn default() -> (s: Self)
        ensures
            s.open is None,
            s.search@ == Seq::<char>::empty(),
            s.renaming is None,
            s.confirm_delete is None,
    {
        CastPanelState { open: None, search: String::new(), renaming: None, confirm_delete: None }
    }
}

impl CastPanelState {
    /// Does the character called `name` pass the search? Case is ignored,
    /// the search is trimmed, and an empty search lets everyone through.
    pub fn matches(&self, name: &str) -> (r: bool)
        ensures
            r == search_matches_spec(lowercase_of(trimmed(self.search@)), lowercase_of(name@)),
    {
        name_matches_search(self.search.as_str(), name)
    }
}

} // verus!
