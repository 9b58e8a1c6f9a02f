//! What the Assets panel remembers: reusable artwork that outlives the
//! document, kept in folders on disk and browsed by eye.
//!
//! The panel raises intentions rather than performing them; what it decides
//! for itself is which folders are open, which names the search lets
//! through, how big the pictures are and how a long name is cut to fit.

use std::path::PathBuf;
use vstd::prelude::*;

use crate::folders::{is_open, open_set, toggle_open, toggled};
use crate::text::{
    chars_of, lowercase_of, name_matches_search, search_matches_spec, string_from, trimmed,
};

verus! {

/// How big the pictures are drawn, and — because the two are the same
/// decision — how the assets are laid out: small and medium pictures sit one
/// per row beside their names, large ones make a grid.
#[derive(Debug, Clone, Copy, PartialEq, Eq, Hash, Structural)]
pub enum ThumbnailSize {
    /// A stamp beside the name, one asset per row. The densest listing.
    Small,
    /// A picture with its name beside it, still one per row.
    Medium,
    /// A grid of pictures with the name underneath, as many across as fit.
    Large,
}

impl Default for ThumbnailSize {
    fn default() -> (t: Self)
        ensures
            t == ThumbnailSize::Medium,
    {
        ThumbnailSize::Medium
    }
}

impl ThumbnailSize {
    /// Every size, smallest first.
    pub const ALL: [ThumbnailSize; 3] = [
        ThumbnailSize::Small,
        ThumbnailSize::Medium,
        ThumbnailSize::Large,
    ];

    pub open spec fn label_spec(self) -> Seq<char> {
        match self {
            ThumbnailSize::Small => "Small"@,
            ThumbnailSize::Medium => "Medium"@,
            ThumbnailSize::Large => "Large"@,
        }
    }

    pub fn label(self) -> (r: &'static str)
        ensures
            r@ == self.label_spec(),
    {
        match self {
            ThumbnailSize::Small => "Small",
            ThumbnailSize::Medium => "Medium",
            ThumbnailSize::Large => "Large",
        }
    }

    /// Does this size lay the assets out as a grid rather than as rows?
    pub fn is_grid(self) -> (r: bool)
        ensures
            r <==> self == ThumbnailSize::Large,
    {
        match self {
            ThumbnailSize::Large => true,
            _ => false,
        }
    }
}

/// Panel state that is not part of the document, and not part of the library.
#[derive(Debug)]
pub struct AssetPanelState {
    /// The folder a new asset goes into.
    pub selected_folder: String,
    /// Free-text filter over names.
    pub search: String,
    /// An Animate import in progress: assets done, and how many there are.
    pub importing: Option<(usize, usize)>,
    /// How big the pictures are, and so how the assets are laid out.
    pub thumbnail_size: ThumbnailSize,
    /// A folder whose deletion has been asked for once and not yet confirmed:
    /// an asset library has no undo, so the first click says what will go and
    /// the second does it.
    pub confirm_delete: Option<String>,
    /// A rename in progress: the asset's file, and the name being typed.
    pub renaming: Option<(PathBuf, String)>,
    /// The folders shown open, by path.
    pub expanded: Vec<String>,
}

impl Default for AssetPanelState {
    fn default() -> (s: Self)
        ensures
            s.selected_folder@ == Seq::<char>::empty(),
            s.search@ == Seq::<char>::empty(),
            s.importing is None,
            s.thumbnail_size == ThumbnailSize::Medium,
            s.confirm_delete is None,
            s.expanded_folders() == Set::<Seq<char>>::empty(),
    {
        let s = AssetPanelState {
            selected_folder: String::new(),
            search: String::new(),
            importing: None,
            thumbnail_size: ThumbnailSize::Medium,
            confirm_delete: None,
            renaming: None,
            expanded: Vec::new(),
        };
        assert(s.expanded_folders() =~= Set::<Seq<char>>::empty());
        s
    }
}

impl AssetPanelState {
    /// The paths of the folders that are open.
    pub open spec fn expanded_folders(&self) -> Set<Seq<char>> {
        open_set(self.expanded@)
    }

    /// Is the folder at `path` shown open?
    pub fn is_expanded(&self, path: &str) -> (r: bool)
        ensures
            r == self.expanded_folders().contains(path@),
    {
        is_open(&self.expanded, path)
    }

    /// Open the folder at `path` if it is shut, shut it if it is open; every
    /// other folder stays as it was.
    pub fn toggle(&mut self, path: &str)
        ensures
            final(self).expanded_folders() == toggled(old(self).expanded_folders(), path@),
            final(self).selected_folder == old(self).selected_folder,
            final(self).search == old(self).search,
            final(self).importing == old(self).importing,
            final(self).thumbnail_size == old(self).thumbnail_size,
            final(self).confirm_delete == old(self).confirm_delete,
            final(self).renaming == old(self).renaming,
    {
        toggle_open(&mut self.expanded, path);
    }

    /// Does `name` pass the search? Case is ignored, the search is trimmed,
    /// and an empty search lets everything through.
    pub fn matches(&self, name: &str) -> (r: bool)
        ensures
            r == search_matches_spec(lowercase_of(trimmed(self.search@)), lowercase_of(name@)),
    {
        name_matches_search(self.search.as_str(), name)
    }
}

/// `name` as a listing shows it: whole if it has at most `max` characters,
/// else its first `max - 1` characters and an ellipsis.
pub open spec fn shorten_spec(name: Seq<char>, max: nat) -> Seq<char> {
    if name.len() <= max {
        name
    } else {
        name.take(if max == 0 { 0 } else { max - 1 }).push('\u{2026}')
    }
}

/// `name`, cut to `max` characters with an ellipsis if it is longer.
pub fn shorten(name: &str, max: usize) -> (r: String)
    ensures
        r@ == shorten_spec(name@, max as nat),
{
    let chars = chars_of(name);
    if chars.len() <= max {
        return string_from(&chars);
    }
    let keep = if max == 0 { 0 } else { max - 1 };
    let mut kept: Vec<char> = Vec::new();
    let mut i: usize = 0;
    while i < keep
        invariant
            keep < chars@.len(),
            i <= keep,
            kept@ == chars@.take(i as int),
        decreases keep - i,
    {
        kept.push(chars[i]);
        assert(kept@ =~= chars@.take(i + 1));
        i = i + 1;
    }
    kept.push('\u{2026}');
    string_from(&kept)
}

} // verus!
