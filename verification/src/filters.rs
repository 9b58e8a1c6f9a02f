//! What the Filters panel remembers between frames: what it is editing, and
//! which row of the stack is open.

use vstd::prelude::*;

verus! {

/// What the panel is editing.
#[derive(Debug, Clone, Copy, PartialEq, Eq, Hash, Structural)]
pub enum FilterTarget {
    /// The selected object.
    Object,
    /// The active layer, as a whole.
    Layer,
}

impl Default for FilterTarget {
    fn default() -> (t: Self)
        ensures
            t == FilterTarget::Object,
    {
        FilterTarget::Object
    }
}

/// Panel state that is not part of the document.
#[derive(Debug, Clone, Copy, PartialEq, Eq, Hash, Structural)]
pub struct FilterPanelState {
    pub target: FilterTarget,
    /// Which row's parameters are shown.
    pub selected: usize,
}

impl Default for FilterPanelState {
    fn default() -> (s: Self)
        ensures
            s.target == FilterTarget::Object,
            s.selected == 0,
    {
        FilterPanelState { target: FilterTarget::Object, selected: 0 }
    }
}

impl FilterPanelState {
    /// Which row of a stack of `count` filters has its parameters shown: the
    /// selected one, or the last when the selection is left over from a
    /// longer stack; none when the stack is empty.
    pub fn shown_row(&self, count: usize) -> (r: Option<usize>)
        ensures
            r == if count == 0 {
                None
            } else if self.selected < count {
                Some(self.selected)
            } else {
                Some((count - 1) as usize)
            },
    {
        if count == 0 {
            None
        } else if self.selected < count {
            Some(self.selected)
        } else {
            Some(count - 1)
        }
    }
}

} // verus!
