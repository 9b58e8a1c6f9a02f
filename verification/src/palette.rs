//! A command palette: press Ctrl+K, type a few letters, run any command.
//!
//! Everything a menu can do is already a [`Command`] with a label — this is a
//! search box over that catalogue, so a command buried three menus deep is
//! two keystrokes away. The arrow keys move the highlight, wrapping at the
//! ends, and Enter runs what is highlighted.

use vstd::prelude::*;

use crate::command::{palette_commands, palette_spec, Command};
use crate::text::{lowercase_of, search_matches, search_matches_spec, to_lowercase};

verus! {

/// The palette's open state and current query. Held by the shell across
/// frames.
#[derive(Debug)]
pub struct CommandPaletteState {
    pub open: bool,
    /// What has been typed.
    pub query: String,
    /// Which of the matching commands is highlighted.
    pub selected: usize,
    /// Set the frame the palette opens, so the search box takes focus once.
    pub just_opened: bool,
}

impl Default for CommandPaletteState {
    fn default() -> (s: Self)
        ensures
            !s.open,
            s.query@ == Seq::<char>::empty(),
            s.selected == 0,
            !s.just_opened,
    {
        CommandPaletteState { open: false, query: String::new(), selected: 0, just_opened: false }
    }
}

/// Does the palette list `c` for the query `query`? Its label, lowered,
/// holds the lowered query; an empty query lists everything.
pub open spec fn lists_command(query: Seq<char>, c: Command) -> bool {
    search_matches_spec(lowercase_of(query), lowercase_of(c.label_spec()))
}

/// The highlight after one frame's arrow keys, over `count` matches: Down
/// and then Up move it one place, wrapping round the ends, and it is kept on
/// the list (or at its top when the list is empty).
pub open spec fn highlight_after(selected: nat, count: nat, down: bool, up: bool) -> nat {
    let after_down = if count > 0 && down {
        (selected + 1) % count
    } else {
        selected
    };
    let after_up = if count > 0 && up {
        ((after_down + count - 1) as nat) % count
    } else {
        after_down
    };
    let last = if count == 0 {
        0
    } else {
        (count - 1) as nat
    };
    if after_up < last {
        after_up
    } else {
        last
    }
}

impl CommandPaletteState {
    /// Open (or re-open) the palette with an empty query.
    pub fn open(&mut self)
        ensures
            final(self).open,
            final(self).just_opened,
            final(self).query@ == Seq::<char>::empty(),
            final(self).selected == 0,
    {
        self.open = true;
        self.just_opened = true;
        self.query = String::new();
        self.selected = 0;
    }

    /// Ctrl+K: close the palette if it is open, else open it afresh.
    pub fn toggle(&mut self)
        ensures
            old(self).open ==> (!final(self).open && final(self).query == old(self).query
                && final(self).selected == old(self).selected && final(self).just_opened
                == old(self).just_opened),
            !old(self).open ==> (final(self).open && final(self).just_opened
                && final(self).query@ == Seq::<char>::empty() && final(self).selected == 0),
    {
        if self.open {
            self.open = false;
        } else {
            self.open();
        }
    }

    /// Apply one frame's arrow keys to the highlight, over `count` matching
    /// commands.
    pub fn move_highlight(&mut self, count: usize, down: bool, up: bool)
        requires
            count > 0 && down ==> old(self).selected < usize::MAX,
            count > 0 && up ==> (if down {
                (old(self).selected + 1) % (count as int)
            } else {
                old(self).selected as int
            }) + count <= usize::MAX,
        ensures
            final(self).selected == highlight_after(old(self).selected as nat, count as nat, down, up),
            final(self).open == old(self).open,
            final(self).query == old(self).query,
            final(self).just_opened == old(self).just_opened,
    {
        if count > 0 {
            if down {
                self.selected = (self.selected + 1) % count;
            }
            if up {
                self.selected = (self.selected + count - 1) % count;
            }
        }
        let last = if count == 0 { 0 } else { count - 1 };
        if self.selected > last {
            self.selected = last;
        }
    }
}

/// The commands the palette lists for `query`, in catalogue order.
pub fn palette_matches(query: &str) -> (r: Vec<Command>)
    ensures
        r@ == palette_spec().filter(|c: Command| lists_command(query@, c)),
{
    let all = palette_commands();
    let needle = to_lowercase(query);
    let ghost pred = |c: Command| lists_command(query@, c);
    let mut r: Vec<Command> = Vec::new();
    let mut i: usize = 0;
    while i < all.len()
        invariant
            i <= all@.len(),
            all@ == palette_spec(),
            needle@ == lowercase_of(query@),
            pred == (|c: Command| lists_command(query@, c)),
            r@ == all@.take(i as int).filter(pred),
        decreases all@.len() - i,
    {
        let c = all[i];
        let lowered = to_lowercase(c.label());
        let keep = search_matches(needle.as_str(), lowered.as_str());
        proof {
            let t = all@.take(i + 1);
            assert(t.drop_last() =~= all@.take(i as int));
            assert(t.last() == c);
            assert(keep == pred(c));
            reveal_with_fuel(Seq::filter, 1);
            assert(t.filter(pred) == if pred(c) {
                all@.take(i as int).filter(pred).push(c)
            } else {
                all@.take(i as int).filter(pred)
            });
        }
        if keep {
            r.push(c);
        }
        i = i + 1;
    }
    assert(all@.take(i as int) =~= all@);
    r
}

/// **Down then Up comes back**: on a list of matches, moving the highlight
/// one place down and then one place up puts it where it was, even at the
/// bottom, where Down wraps to the top.
pub proof fn down_then_up_restores(selected: nat, count: nat)
    requires
        selected < count,
    ensures
        highlight_after(highlight_after(selected, count, true, false), count, false, true) == selected,
        highlight_after(selected, count, true, false) < count,
{
    if selected + 1 < count {
        assert((selected + 1) % count == selected + 1) by (nonlinear_arith)
            requires
                selected + 1 < count,
        ;
        assert(((selected + 1 + count - 1) as nat) % count == selected) by (nonlinear_arith)
            requires
                selected + 1 < count,
        ;
    } else {
        assert((selected + 1) % count == 0) by (nonlinear_arith)
            requires
                selected + 1 == count,
        ;
        assert(((0 + count - 1) as nat) % count == count - 1) by (nonlinear_arith)
            requires
                count >= 1,
        ;
    }
}

/// **The highlight never runs off the list**: whatever the keys, it ends on
/// one of the matches, or at the top of an empty list.
pub proof fn the_highlight_stays_on_the_list(selected: nat, count: nat, down: bool, up: bool)
    ensures
        count > 0 ==> highlight_after(selected, count, down, up) < count,
        count == 0 ==> highlight_after(selected, count, down, up) == 0,
{
}

/// **A query found anywhere in a label lists the command**, not only at the
/// label's start: when the lowered query occurs in the lowered label at any
/// position, the palette lists the command, and a catalogue command is among
/// what [`palette_matches`] returns. Conversely a command listed for a
/// non-empty query has the query somewhere in its label.
pub proof fn a_query_anywhere_in_a_label_lists_it(query: Seq<char>, c: Command, at: int)
    requires
        0 <= at,
        at + lowercase_of(query).len() <= lowercase_of(c.label_spec()).len(),
        lowercase_of(c.label_spec()).subrange(at, at + lowercase_of(query).len()) == lowercase_of(
            query,
        ),
    ensures
        lists_command(query, c),
        palette_spec().contains(c) ==> palette_spec().filter(
            |x: Command| lists_command(query, x),
        ).contains(c),
{
    let hay = lowercase_of(c.label_spec());
    let needle = lowercase_of(query);
    assert(hay.subrange(at, at + needle.len()) == needle);
    if palette_spec().contains(c) {
        let k = choose|k: int| 0 <= k < palette_spec().len() && palette_spec()[k] == c;
        palette_spec().lemma_filter_contains(|x: Command| lists_command(query, x), k);
    }
}

/// The converse half of [`a_query_anywhere_in_a_label_lists_it`].
pub proof fn a_listed_command_holds_the_query(query: Seq<char>, c: Command)
    requires
        lists_command(query, c),
        lowercase_of(query).len() > 0,
    ensures
        exists|at: int|
            0 <= at && at + lowercase_of(query).len() <= lowercase_of(c.label_spec()).len()
                && #[trigger] lowercase_of(c.label_spec()).subrange(
                at,
                at + lowercase_of(query).len(),
            ) == lowercase_of(query),
{
}

} // verus!
