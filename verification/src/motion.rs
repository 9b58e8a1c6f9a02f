//! The Motion Editor's view state.

use vstd::prelude::*;

verus! {

/// Panel view state. Deliberately empty: the curve lives on the keyframe, not
/// here, so nothing needs remembering between frames.
#[derive(Debug, Clone, Copy, Default, PartialEq, Eq, Hash, Structural)]
pub struct MotionEditorState;

} // verus!
