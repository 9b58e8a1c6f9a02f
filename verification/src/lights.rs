//! What the Lighting panel remembers between frames, and which light it
//! shows.

use vstd::prelude::*;

use crate::ids::LightId;

verus! {

/// Panel state that is not part of the document.
#[derive(Debug, Clone, Copy, PartialEq, Eq)]
pub struct LightPanelState {
    pub selected: Option<LightId>,
    /// The playhead, so the keyframe button can key here and show whether
    /// the selected light already has a key at this frame.
    pub current_frame: u32,
    /// Draw the light handles on the stage, and let them be dragged.
    pub gizmos: bool,
    /// What the renderer had to leave out of the last frame, if anything —
    /// said, because lighting missing without explanation looks like a bug.
    pub trimmed: Option<&'static str>,
}

impl Default for LightPanelState {
    /// Handles on: a light you cannot see is a light you cannot aim.
    fn default() -> (s: Self)
        ensures
            s.selected is None,
            s.current_frame == 0,
            s.gizmos,
            s.trimmed is None,
    {
        LightPanelState { selected: None, current_frame: 0, gizmos: true, trimmed: None }
    }
}

/// Does `id` appear in `lights`?
pub open spec fn has_light(lights: Seq<LightId>, id: LightId) -> bool {
    exists|i: int| 0 <= i < lights.len() && #[trigger] lights[i] == id
}

/// Is `k` the first place `id` appears in `lights`?
pub open spec fn first_place(lights: Seq<LightId>, id: LightId, k: int) -> bool {
    0 <= k < lights.len() && lights[k] == id && forall|j: int| 0 <= j < k ==> #[trigger] lights[j] != id
}

impl LightPanelState {
    /// Which of the rig's lights, by position, the panel shows: the selected
    /// one while it exists, else the first — adding a light and being told to
    /// select one would be a step backwards. None with no lights at all.
    pub fn shown_light(&self, lights: &[LightId]) -> (r: Option<usize>)
        ensures
            self.selected is Some && has_light(lights@, self.selected->0) ==> r is Some
                && first_place(lights@, self.selected->0, r->0 as int),
            !(self.selected is Some && has_light(lights@, self.selected->0)) ==> r == if lights@.len()
                > 0 {
                Some(0usize)
            } else {
                None
            },
    {
        if let Some(id) = self.selected {
            let mut i: usize = 0;
            while i < lights.len()
                invariant
                    i <= lights@.len(),
                    self.selected == Some(id),
                    forall|j: int| 0 <= j < i ==> lights@[j] != id,
                decreases lights@.len() - i,
            {
                if lights[i] == id {
                    assert(lights@[i as int] == id);
                    assert(first_place(lights@, id, i as int));
                    return Some(i);
                }
                i = i + 1;
            }
            assert(!has_light(lights@, id));
        }
        if lights.len() > 0 {
            Some(0)
        } else {
            None
        }
    }
}

} // verus!
