//! What the Library panel remembers, and the list of rows it shows.
//!
//! Animate's Library is where every symbol in a document lives, organised into
//! folders. The panel shows that tree with a search box that filters across
//! the whole library at once and a switch between animated symbols, stills or
//! both. The tree itself belongs to the document; the panel is handed one
//! level of it at a time and decides which rows to show, in which order.

use vstd::multiset::Multiset;
use vstd::prelude::*;

use crate::folders::{is_open, open_all, open_set, toggle_open, toggled};
use crate::ids::SymbolId;
use crate::text::{
    chars_of, is_blank, is_blank_chars, lowercase_of, search_matches, search_matches_spec, string_from,
    to_lowercase, trim_str, trimmed,
};

verus! {

/// Which items a panel is showing: everything, only what moves, or only
/// stills. The Library and the Assets panels share it.
#[derive(Debug, Clone, Copy, PartialEq, Eq, Hash, Structural)]
pub enum MotionFilter {
    /// Animated and static together, each under its own heading.
    All,
    /// Only what moves.
    Animated,
    /// Only stills.
    Static,
}

impl Default for MotionFilter {
    fn default() -> (m: Self)
        ensures
            m == MotionFilter::All,
    {
        MotionFilter::All
    }
}

impl MotionFilter {
    /// The three choices, in the order the toggle shows them.
    pub const ALL: [MotionFilter; 3] = [MotionFilter::All, MotionFilter::Animated, MotionFilter::Static];

    pub open spec fn label_spec(self) -> Seq<char> {
        match self {
            MotionFilter::All => "All"@,
            MotionFilter::Animated => "Animated"@,
            MotionFilter::Static => "Static"@,
        }
    }

    pub fn label(self) -> (r: &'static str)
        ensures
            r@ == self.label_spec(),
    {
        match self {
            MotionFilter::All => "All",
            MotionFilter::Animated => "Animated",
            MotionFilter::Static => "Static",
        }
    }

    pub open spec fn accepts_spec(self, animated: bool) -> bool {
        match self {
            MotionFilter::All => true,
            MotionFilter::Animated => animated,
            MotionFilter::Static => !animated,
        }
    }

    /// Does an item with this motion pass the filter?
    pub fn accepts(self, animated: bool) -> (r: bool)
        ensures
            r == self.accepts_spec(animated),
    {
        match self {
            MotionFilter::All => true,
            MotionFilter::Animated => animated,
            MotionFilter::Static => !animated,
        }
    }
}

/// What a symbol is, in Animate's terms.
#[derive(Debug, Clone, Copy, PartialEq, Eq, Hash, Structural)]
pub enum SymbolKind {
    Graphic,
    MovieClip,
    Button,
}

/// One symbol of a library level, as the panel lists it.
#[derive(Debug, Clone)]
pub struct LibrarySymbol {
    pub id: SymbolId,
    pub name: String,
    pub kind: SymbolKind,
    /// Does the symbol move — more than one frame of its own?
    pub animated: bool,
}

/// A folder of the library: its full path, and what is directly inside it.
#[derive(Debug)]
pub struct LibraryFolder {
    /// The folder's path from the library root, `/` between the levels.
    pub path: String,
    /// The folders directly inside this one, in listing order.
    pub folders: Vec<LibraryFolder>,
    /// The symbols directly inside this one, in listing order.
    pub symbols: Vec<LibrarySymbol>,
}

/// The top of the library: the folders at its root and the symbols in no
/// folder.
#[derive(Debug)]
pub struct LibraryLevel {
    pub folders: Vec<LibraryFolder>,
    pub symbols: Vec<LibrarySymbol>,
}

/// Panel state that is not part of the document: which folders are open and
/// what is typed in the search box must survive a frame but must never end up
/// in the saved file or in the undo history.
#[derive(Debug)]
pub struct LibraryState {
    /// The symbol whose properties the panel is showing.
    pub selected: Option<SymbolId>,
    /// The folder currently highlighted, for "new symbol goes here".
    pub selected_folder: Option<String>,
    /// Free-text filter. Matches symbol names, case-insensitively.
    pub search: String,
    /// What kind of symbol New Symbol and Convert to Symbol produce.
    pub new_symbol_kind: SymbolKind,
    /// Whether the list shows every symbol, only animated ones, or only stills.
    pub motion: MotionFilter,
    /// Folder paths the user has opened.
    pub expanded: Vec<String>,
    /// The symbol being renamed and the name typed so far, while a rename is
    /// in progress.
    pub renaming: Option<(SymbolId, String)>,
    /// The search, trimmed and lower-cased once a frame by
    /// [`LibraryState::sync_search`] rather than once per symbol.
    pub search_lower: String,
}

impl Default for LibraryState {
    fn default() -> (s: Self)
        ensures
            s.selected is None,
            s.selected_folder is None,
            s.search@ == Seq::<char>::empty(),
            s.new_symbol_kind == SymbolKind::Graphic,
            s.motion == MotionFilter::All,
            s.expanded_folders() == Set::<Seq<char>>::empty(),
            s.renaming is None,
            s.search_lower@ == Seq::<char>::empty(),
    {
        let s = LibraryState {
            selected: None,
            selected_folder: None,
            search: String::new(),
            new_symbol_kind: SymbolKind::Graphic,
            motion: MotionFilter::All,
            expanded: Vec::new(),
            renaming: None,
            search_lower: String::new(),
        };
        assert(s.expanded_folders() =~= Set::<Seq<char>>::empty());
        s
    }
}

impl LibraryState {
    /// The paths of the folders that are open.
    pub open spec fn expanded_folders(&self) -> Set<Seq<char>> {
        open_set(self.expanded@)
    }

    /// Does a symbol of this name and motion make it into the list?
    pub open spec fn shows(&self, name: Seq<char>, animated: bool) -> bool {
        search_matches_spec(self.search_lower@, lowercase_of(name)) && self.motion.accepts_spec(
            animated,
        )
    }

    pub fn is_expanded(&self, path: &str) -> (r: bool)
        ensures
            r == self.expanded_folders().contains(path@),
    {
        is_open(&self.expanded, path)
    }

    /// Open the folder at `path` if it is shut, shut it if it is open.
    pub fn toggle(&mut self, path: &str)
        ensures
            final(self).expanded_folders() == toggled(old(self).expanded_folders(), path@),
            final(self).selected == old(self).selected,
            final(self).selected_folder == old(self).selected_folder,
            final(self).search == old(self).search,
            final(self).new_symbol_kind == old(self).new_symbol_kind,
            final(self).motion == old(self).motion,
            final(self).renaming == old(self).renaming,
            final(self).search_lower == old(self).search_lower,
    {
        toggle_open(&mut self.expanded, path);
    }

    /// Open every folder of the library, and only those — what a search
    /// needs in order to show hits buried several levels down.
    pub fn expand_all(&mut self, folders: &[String])
        ensures
            final(self).expanded_folders() == open_set(folders@),
            final(self).selected == old(self).selected,
            final(self).selected_folder == old(self).selected_folder,
            final(self).search == old(self).search,
            final(self).new_symbol_kind == old(self).new_symbol_kind,
            final(self).motion == old(self).motion,
            final(self).renaming == old(self).renaming,
            final(self).search_lower == old(self).search_lower,
    {
        self.expanded = open_all(folders);
    }

    /// Is the panel filtering? White space alone is not a search.
    pub fn is_searching(&self) -> (r: bool)
        ensures
            r == !is_blank(self.search@),
    {
        !is_blank_chars(&chars_of(self.search.as_str()))
    }

    /// Recompute the lower-cased search. Called once at the top of a frame.
    pub fn sync_search(&mut self)
        ensures
            final(self).search_lower@ == lowercase_of(trimmed(old(self).search@)),
            final(self).selected == old(self).selected,
            final(self).selected_folder == old(self).selected_folder,
            final(self).search == old(self).search,
            final(self).new_symbol_kind == old(self).new_symbol_kind,
            final(self).motion == old(self).motion,
            final(self).expanded == old(self).expanded,
            final(self).renaming == old(self).renaming,
    {
        let trimmed_search = trim_str(self.search.as_str());
        self.search_lower = to_lowercase(trimmed_search.as_str());
    }

    /// Does `name` pass the search, as last synchronised? Case is ignored, and
    /// an empty search lets everything through.
    pub fn matches(&self, name: &str) -> (r: bool)
        ensures
            r == search_matches_spec(self.search_lower@, lowercase_of(name@)),
    {
        let lowered = to_lowercase(name);
        search_matches(self.search_lower.as_str(), lowered.as_str())
    }

    /// Start naming a symbol, as though its name had been double-clicked:
    /// called the moment one is made, with the name it was given.
    pub fn start_naming(&mut self, id: SymbolId, name: String)
        ensures
            final(self).renaming == Some((id, name)),
            final(self).selected == old(self).selected,
            final(self).selected_folder == old(self).selected_folder,
            final(self).search == old(self).search,
            final(self).new_symbol_kind == old(self).new_symbol_kind,
            final(self).motion == old(self).motion,
            final(self).expanded == old(self).expanded,
            final(self).search_lower == old(self).search_lower,
    {
        self.renaming = Some((id, name));
    }

    /// The symbol whose name is being typed, if one is.
    pub fn naming(&self) -> (r: Option<SymbolId>)
        ensures
            r == match self.renaming {
                Some((id, _)) => Some(id),
                None => None,
            },
    {
        match &self.renaming {
            Some((id, _)) => Some(*id),
            None => None,
        }
    }
}

/// One line of the flattened Library tree.
#[derive(Debug)]
pub enum Row {
    /// A folder: its path, the last part of the path to show, and how deep.
    Folder { path: String, leaf: String, depth: usize },
    /// An "Animated" or "Static" heading over the symbols that follow, shown
    /// only when both kinds are on show and that group has members.
    Group { label: &'static str, depth: usize },
    Symbol { id: SymbolId, name: String, kind: SymbolKind, depth: usize },
}

/// A row, as plain values.
pub enum RowView {
    Folder { path: Seq<char>, leaf: Seq<char>, depth: nat },
    Group { label: Seq<char>, depth: nat },
    Symbol { id: SymbolId, name: Seq<char>, kind: SymbolKind, depth: nat },
}

impl View for Row {
    type V = RowView;

    open spec fn view(&self) -> RowView {
        match self {
            Row::Folder { path, leaf, depth } => RowView::Folder {
                path: path@,
                leaf: leaf@,
                depth: *depth as nat,
            },
            Row::Group { label, depth } => RowView::Group { label: label@, depth: *depth as nat },
            Row::Symbol { id, name, kind, depth } => RowView::Symbol {
                id: *id,
                name: name@,
                kind: *kind,
                depth: *depth as nat,
            },
        }
    }
}

/// The rows, as plain values.
pub open spec fn rows_view(rows: Seq<Row>) -> Seq<RowView> {
    rows.map_values(|r: Row| r@)
}

/// The last part of a folder path: what follows its last `/`, or the whole
/// path when it has none.
pub open spec fn leaf_of(path: Seq<char>) -> Seq<char>
    decreases path.len(),
{
    if path.len() == 0 {
        path
    } else if path.last() == '/' {
        Seq::empty()
    } else {
        leaf_of(path.drop_last()).push(path.last())
    }
}

/// The symbol rows for those of `symbols` that the state shows and whose
/// motion is `animated`, in listing order.
pub open spec fn picked_rows(
    symbols: Seq<LibrarySymbol>,
    state: LibraryState,
    animated: bool,
    depth: nat,
) -> Seq<RowView>
    decreases symbols.len(),
{
    if symbols.len() == 0 {
        Seq::empty()
    } else {
        let rest = picked_rows(symbols.drop_last(), state, animated, depth);
        let s = symbols.last();
        if state.shows(s.name@, s.animated) && s.animated == animated {
            rest.push(RowView::Symbol { id: s.id, name: s.name@, kind: s.kind, depth })
        } else {
            rest
        }
    }
}

/// One group of symbols: nothing when it is empty, else a heading (when both
/// kinds are on show) over its rows.
pub open spec fn group_rows(label: Seq<char>, picked: Seq<RowView>, state: LibraryState, depth: nat) -> Seq<
    RowView,
> {
    if picked.len() == 0 {
        Seq::empty()
    } else if state.motion == MotionFilter::All {
        seq![RowView::Group { label, depth }] + picked
    } else {
        picked
    }
}

/// The symbols of one level: the animated group, then the still one.
pub open spec fn symbol_rows(symbols: Seq<LibrarySymbol>, state: LibraryState, depth: nat) -> Seq<
    RowView,
> {
    group_rows("Animated"@, picked_rows(symbols, state, true, depth), state, depth) + group_rows(
        "Static"@,
        picked_rows(symbols, state, false, depth),
        state,
        depth,
    )
}

/// The rows for a run of sibling folders: each folder's own row, then —
/// when it is open — its folders and symbols one level deeper.
pub open spec fn folder_rows(folders: Seq<LibraryFolder>, state: LibraryState, depth: nat) -> Seq<
    RowView,
>
    decreases folders,
{
    if folders.len() == 0 {
        Seq::empty()
    } else {
        let f = folders[0];
        let own = seq![RowView::Folder { path: f.path@, leaf: leaf_of(f.path@), depth }];
        let inside = if state.expanded_folders().contains(f.path@) {
            proof {
                assert(decreases_to!(folders => folders[0]));
                assert(decreases_to!(f => f.folders));
                assert(decreases_to!(f.folders => f.folders@));
            }
            folder_rows(f.folders@, state, depth + 1) + symbol_rows(f.symbols@, state, depth + 1)
        } else {
            Seq::empty()
        };
        own + inside + folder_rows(folders.drop_first(), state, depth)
    }
}

/// Do `folders` nest no more than `levels` deep?
pub open spec fn nests_within(folders: Seq<LibraryFolder>, levels: nat) -> bool
    decreases levels,
{
    forall|i: int|
        0 <= i < folders.len() ==> levels > 0 && nests_within(#[trigger] folders[i].folders@, (levels - 1) as nat)
}

proof fn lemma_nests_within_child(folders: Seq<LibraryFolder>, levels: nat, i: int)
    requires
        nests_within(folders, levels),
        0 <= i < folders.len(),
    ensures
        levels > 0,
        nests_within(folders[i].folders@, (levels - 1) as nat),
{
    assert(folders[i].folders@ == folders[i].folders@);
    assert(levels > 0 && nests_within(folders[i].folders@, (levels - 1) as nat));
}

proof fn lemma_leaf_of(path: Seq<char>, start: int)
    requires
        0 <= start <= path.len(),
        forall|k: int| start <= k < path.len() ==> #[trigger] path[k] != '/',
        start == 0 || path[start - 1] == '/',
    ensures
        leaf_of(path) == path.subrange(start, path.len() as int),
    decreases path.len(),
{
    if path.len() == 0 {
        assert(path.subrange(start, 0) =~= path);
    } else if start == path.len() {
        assert(path.subrange(start, path.len() as int) =~= Seq::<char>::empty());
    } else {
        let shorter = path.drop_last();
        assert forall|k: int| start <= k < shorter.len() implies #[trigger] shorter[k] != '/' by {
            assert(shorter[k] == path[k]);
        }
        if start > 0 {
            assert(shorter[start - 1] == path[start - 1]);
        }
        lemma_leaf_of(shorter, start);
        assert(path.last() == path[path.len() - 1]);
        assert(path.subrange(start, path.len() as int) =~= shorter.subrange(
            start,
            shorter.len() as int,
        ).push(path.last()));
    }
}

/// The last part of a folder path, as `rsplit('/').next()` finds it.
pub fn leaf_name(path: &str) -> (r: String)
    ensures
        r@ == leaf_of(path@),
{
    let chars = chars_of(path);
    let n = chars.len();
    let mut start = n;
    while start > 0 && chars[start - 1] != '/'
        invariant
            start <= n,
            n == chars@.len(),
            forall|k: int| start <= k < n ==> #[trigger] chars@[k] != '/',
        decreases start,
    {
        start = start - 1;
    }
    let mut leaf: Vec<char> = Vec::new();
    let mut i = start;
    while i < n
        invariant
            start <= i <= n,
            n == chars@.len(),
            leaf@ == chars@.subrange(start as int, i as int),
        decreases n - i,
    {
        leaf.push(chars[i]);
        assert(leaf@ =~= chars@.subrange(start as int, i + 1));
        i = i + 1;
    }
    proof {
        lemma_leaf_of(chars@, start as int);
    }
    string_from(&leaf)
}

/// The rows for those of `symbols` that the state shows and whose motion is
/// `animated`, in listing order.
fn picked_symbols(symbols: &Vec<LibrarySymbol>, state: &LibraryState, animated: bool, depth: usize) -> (g:
    Vec<Row>)
    ensures
        rows_view(g@) == picked_rows(symbols@, *state, animated, depth as nat),
{
    let mut g: Vec<Row> = Vec::new();
    let mut i: usize = 0;
    while i < symbols.len()
        invariant
            i <= symbols@.len(),
            rows_view(g@) == picked_rows(symbols@.take(i as int), *state, animated, depth as nat),
        decreases symbols@.len() - i,
    {
        let s = &symbols[i];
        let ghost before = g@;
        proof {
            let t = symbols@.take(i + 1);
            assert(t.drop_last() =~= symbols@.take(i as int));
            assert(t.last() == symbols@[i as int]);
        }
        if state.matches(s.name.as_str()) && state.motion.accepts(s.animated) && s.animated == animated {
            g.push(Row::Symbol { id: s.id, name: s.name.clone(), kind: s.kind, depth });
            assert(rows_view(g@) =~= rows_view(before).push(g@.last()@));
        }
        i = i + 1;
    }
    assert(symbols@.take(i as int) =~= symbols@);
    g
}

/// Put one group on the end of `rows`: nothing when it is empty, else its
/// heading (when both kinds are on show) and its rows.
fn emit_group(
    label: &'static str,
    group: Vec<Row>,
    state: &LibraryState,
    depth: usize,
    rows: &mut Vec<Row>,
)
    ensures
        rows_view(final(rows)@) == rows_view(old(rows)@) + group_rows(
            label@,
            rows_view(group@),
            *state,
            depth as nat,
        ),
{
    if group.len() == 0 {
        assert(rows_view(rows@) =~= rows_view(rows@) + Seq::<RowView>::empty());
        return;
    }
    let ghost start = rows@;
    if state.motion == MotionFilter::All {
        rows.push(Row::Group { label, depth });
    }
    let ghost middle = rows@;
    let mut group = group;
    let ghost g = group@;
    rows.append(&mut group);
    proof {
        assert(rows@ =~= middle + g);
        assert(rows_view(rows@) =~= rows_view(middle) + rows_view(g));
        if state.motion == MotionFilter::All {
            assert(rows_view(middle) =~= rows_view(start) + seq![RowView::Group { label: label@, depth: depth as nat }]);
        } else {
            assert(middle == start);
        }
    }
}

/// Put the rows of one level of the tree on the end of `rows`: its folders,
/// each followed by its contents when open, then its own symbols.
fn walk(
    folders: &Vec<LibraryFolder>,
    symbols: &Vec<LibrarySymbol>,
    state: &LibraryState,
    depth: usize,
    rows: &mut Vec<Row>,
)
    requires
        nests_within(folders@, (usize::MAX - depth) as nat),
    ensures
        rows_view(final(rows)@) == rows_view(old(rows)@) + folder_rows(folders@, *state, depth as nat)
            + symbol_rows(symbols@, *state, depth as nat),
    decreases folders@,
{
    let ghost start = rows_view(rows@);
    let ghost levels = (usize::MAX - depth) as nat;
    assert(folders@.skip(0) =~= folders@);
    let mut i: usize = 0;
    while i < folders.len()
        invariant
            i <= folders@.len(),
            levels == (usize::MAX - depth) as nat,
            nests_within(folders@, levels),
            start + folder_rows(folders@, *state, depth as nat) == rows_view(rows@) + folder_rows(
                folders@.skip(i as int),
                *state,
                depth as nat,
            ),
        decreases folders@.len() - i,
    {
        let f = &folders[i];
        let ghost rest = folders@.skip(i as int);
        let ghost before = rows_view(rows@);
        proof {
            assert(rest[0] == folders@[i as int]);
            assert(rest.drop_first() =~= folders@.skip(i + 1));
            lemma_nests_within_child(folders@, levels, i as int);
            assert((levels - 1) as nat == (usize::MAX - (depth + 1)) as nat);
        }
        let leaf = leaf_name(f.path.as_str());
        rows.push(Row::Folder { path: f.path.clone(), leaf, depth });
        assert(rows_view(rows@) =~= before + seq![RowView::Folder { path: f.path@, leaf: leaf_of(f.path@), depth: depth as nat }]);
        if self::LibraryState::is_expanded(state, f.path.as_str()) {
            proof {
                assert(decreases_to!(folders@ => folders@[i as int]));
                assert(decreases_to!(folders@[i as int] => folders@[i as int].folders));
                assert(decreases_to!(folders@[i as int].folders => folders@[i as int].folders@));
            }
            walk(&f.folders, &f.symbols, state, depth + 1, rows);
        }
        i = i + 1;
    }
    assert(folders@.skip(i as int) =~= Seq::<LibraryFolder>::empty());
    let ghost after_folders = rows_view(rows@);
    let animated = picked_symbols(symbols, state, true, depth);
    emit_group("Animated", animated, state, depth, rows);
    let still = picked_symbols(symbols, state, false, depth);
    emit_group("Static", still, state, depth, rows);
}

/// The visible tree — open folders and the symbols that pass the search and
/// the motion filter — as a list of rows, in display order. Only the rows the
/// scroll area can show are later turned into widgets, so a library of
/// thousands of symbols costs a screenful of widgets a frame.
///
/// The tree can only be as deep as memory allows, which `nests_within`
/// states for the row depth's sake.
pub fn flatten_rows(library: &LibraryLevel, state: &LibraryState) -> (rows: Vec<Row>)
    requires
        nests_within(library.folders@, usize::MAX as nat),
    ensures
        rows_view(rows@) == folder_rows(library.folders@, *state, 0) + symbol_rows(
            library.symbols@,
            *state,
            0,
        ),
{
    let mut rows: Vec<Row> = Vec::new();
    walk(&library.folders, &library.symbols, state, 0, &mut rows);
    assert(rows_view(Seq::<Row>::empty()) =~= Seq::<RowView>::empty());
    rows
}

/// The symbols the rows list, as a multiset of their ids.
pub open spec fn row_ids(rows: Seq<RowView>) -> Multiset<SymbolId>
    decreases rows.len(),
{
    if rows.len() == 0 {
        Multiset::empty()
    } else {
        let rest = row_ids(rows.drop_last());
        match rows.last() {
            RowView::Symbol { id, .. } => rest.insert(id),
            _ => rest,
        }
    }
}

/// The ids of `symbols`, as a multiset.
pub open spec fn symbol_ids(symbols: Seq<LibrarySymbol>) -> Multiset<SymbolId>
    decreases symbols.len(),
{
    if symbols.len() == 0 {
        Multiset::empty()
    } else {
        symbol_ids(symbols.drop_last()).insert(symbols.last().id)
    }
}

/// The ids of every symbol in `folders` and in the folders inside them.
pub open spec fn ids_under(folders: Seq<LibraryFolder>) -> Multiset<SymbolId>
    decreases folders,
{
    if folders.len() == 0 {
        Multiset::empty()
    } else {
        let f = folders[0];
        proof {
            assert(decreases_to!(folders => folders[0]));
            assert(decreases_to!(f => f.folders));
            assert(decreases_to!(f.folders => f.folders@));
        }
        symbol_ids(f.symbols@).add(ids_under(f.folders@)).add(ids_under(folders.drop_first()))
    }
}

/// Is every folder in `folders`, and in the folders inside them, open?
pub open spec fn all_open(folders: Seq<LibraryFolder>, open: Set<Seq<char>>) -> bool
    decreases folders,
{
    if folders.len() == 0 {
        true
    } else {
        let f = folders[0];
        proof {
            assert(decreases_to!(folders => folders[0]));
            assert(decreases_to!(f => f.folders));
            assert(decreases_to!(f.folders => f.folders@));
        }
        open.contains(f.path@) && all_open(f.folders@, open) && all_open(folders.drop_first(), open)
    }
}

/// Is the state hiding nothing: no search, and both kinds on show?
pub open spec fn unfiltered(state: LibraryState) -> bool {
    state.search_lower@.len() == 0 && state.motion == MotionFilter::All
}

proof fn lemma_no_symbol_rows(rows: Seq<RowView>)
    requires
        rows.len() == 1,
        !(rows[0] is Symbol),
    ensures
        row_ids(rows) =~= Multiset::<SymbolId>::empty(),
{
    let none = rows.drop_last();
    assert(none =~= Seq::<RowView>::empty());
    assert(row_ids(none) == Multiset::<SymbolId>::empty());
    assert(rows.last() == rows[0]);
}

proof fn lemma_row_ids_append(a: Seq<RowView>, b: Seq<RowView>)
    ensures
        row_ids(a + b) =~= row_ids(a).add(row_ids(b)),
    decreases b.len(),
{
    broadcast use vstd::multiset::group_multiset_axioms;

    if b.len() == 0 {
        assert(a + b =~= a);
    } else {
        lemma_row_ids_append(a, b.drop_last());
        assert((a + b).drop_last() =~= a + b.drop_last());
        assert((a + b).last() == b.last());
    }
}

proof fn lemma_picked_rows_cover(symbols: Seq<LibrarySymbol>, state: LibraryState, depth: nat)
    requires
        unfiltered(state),
    ensures
        row_ids(picked_rows(symbols, state, true, depth)).add(row_ids(picked_rows(symbols, state, false, depth)))
            =~= symbol_ids(symbols),
    decreases symbols.len(),
{
    broadcast use vstd::multiset::group_multiset_axioms;

    if symbols.len() > 0 {
        let rest = symbols.drop_last();
        let s = symbols.last();
        lemma_picked_rows_cover(rest, state, depth);
        assert(state.shows(s.name@, s.animated));
        let row = RowView::Symbol { id: s.id, name: s.name@, kind: s.kind, depth };
        let yes = picked_rows(rest, state, true, depth);
        let no = picked_rows(rest, state, false, depth);
        if s.animated {
            assert(yes.push(row).drop_last() =~= yes);
            assert(row_ids(yes.push(row)) == row_ids(yes).insert(s.id));
        } else {
            assert(no.push(row).drop_last() =~= no);
            assert(row_ids(no.push(row)) == row_ids(no).insert(s.id));
        }
    }
}

proof fn lemma_symbol_rows_cover(symbols: Seq<LibrarySymbol>, state: LibraryState, depth: nat)
    requires
        unfiltered(state),
    ensures
        row_ids(symbol_rows(symbols, state, depth)) =~= symbol_ids(symbols),
{
    broadcast use vstd::multiset::group_multiset_axioms;

    let yes = picked_rows(symbols, state, true, depth);
    let no = picked_rows(symbols, state, false, depth);
    lemma_picked_rows_cover(symbols, state, depth);
    lemma_group_rows_ids("Animated"@, yes, state, depth);
    lemma_group_rows_ids("Static"@, no, state, depth);
    lemma_row_ids_append(group_rows("Animated"@, yes, state, depth), group_rows("Static"@, no, state, depth));
}

proof fn lemma_group_rows_ids(label: Seq<char>, picked: Seq<RowView>, state: LibraryState, depth: nat)
    ensures
        row_ids(group_rows(label, picked, state, depth)) =~= row_ids(picked),
{
    broadcast use vstd::multiset::group_multiset_axioms;

    if picked.len() > 0 && state.motion == MotionFilter::All {
        let head = seq![RowView::Group { label, depth }];
        lemma_row_ids_append(head, picked);
        lemma_no_symbol_rows(head);
    }
}

proof fn lemma_folder_rows_cover(folders: Seq<LibraryFolder>, state: LibraryState, depth: nat)
    requires
        unfiltered(state),
        all_open(folders, state.expanded_folders()),
    ensures
        row_ids(folder_rows(folders, state, depth)) =~= ids_under(folders),
    decreases folders,
{
    broadcast use vstd::multiset::group_multiset_axioms;

    if folders.len() > 0 {
        let f = folders[0];
        assert(decreases_to!(folders => folders[0]));
        assert(decreases_to!(f => f.folders));
        assert(decreases_to!(f.folders => f.folders@));
        lemma_folder_rows_cover(f.folders@, state, depth + 1);
        lemma_folder_rows_cover(folders.drop_first(), state, depth);
        lemma_symbol_rows_cover(f.symbols@, state, depth + 1);
        let own = seq![RowView::Folder { path: f.path@, leaf: leaf_of(f.path@), depth }];
        let deeper = folder_rows(f.folders@, state, depth + 1);
        let mine = symbol_rows(f.symbols@, state, depth + 1);
        let rest = folder_rows(folders.drop_first(), state, depth);
        lemma_no_symbol_rows(own);
        assert(state.expanded_folders().contains(f.path@));
        assert(folder_rows(folders, state, depth) == own + (deeper + mine) + rest);
        lemma_row_ids_append(deeper, mine);
        lemma_row_ids_append(own, deeper + mine);
        lemma_row_ids_append(own + (deeper + mine), rest);
    }
}

/// **With nothing filtered and every folder open, the list shows every
/// symbol of the library, each exactly once** — a symbol missing from the
/// panel would be invisible while still being in the file.
pub proof fn an_open_unfiltered_library_lists_every_symbol_once(library: LibraryLevel, state: LibraryState)
    requires
        unfiltered(state),
        all_open(library.folders@, state.expanded_folders()),
    ensures
        row_ids(folder_rows(library.folders@, state, 0) + symbol_rows(library.symbols@, state, 0))
            =~= ids_under(library.folders@).add(symbol_ids(library.symbols@)),
{
    lemma_folder_rows_cover(library.folders@, state, 0);
    lemma_symbol_rows_cover(library.symbols@, state, 0);
    lemma_row_ids_append(folder_rows(library.folders@, state, 0), symbol_rows(library.symbols@, state, 0));
}

} // verus!
