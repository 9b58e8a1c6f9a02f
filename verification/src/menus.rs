//! Which menu items can be chosen right now.
//!
//! The menu bar reflects the state of the whole editor: what can be undone,
//! whether anything is selected, whether a symbol is open, whether the camera
//! is on. An item that cannot do anything is shown greyed rather than hidden,
//! so the menu keeps its shape; items whose reason is better read than
//! inferred — a tween on a frame that is not a keyframe — stay enabled and let
//! the editor say why.

use vstd::prelude::*;

use crate::command::Command;

verus! {

/// What the menus need to know about the editor to grey their items.
#[derive(Debug, Clone, Copy, PartialEq, Eq, Hash, Structural)]
pub struct MenuContext {
    /// Is anything selected on the stage?
    pub has_selection: bool,
    pub can_undo: bool,
    pub can_redo: bool,
    /// Is a symbol open for editing, so that there is a document to go back to?
    pub inside_symbol: bool,
    /// How many layers the timeline has: the last one cannot be deleted.
    pub layer_count: usize,
    /// Is the camera on? Its keys mean nothing while it is off.
    pub camera_on: bool,
}

/// Can `c` be chosen from the menus in context `m`?
pub open spec fn menu_enabled_spec(c: Command, m: MenuContext) -> bool {
    match c {
        Command::Undo => m.can_undo,
        Command::Redo => m.can_redo,
        Command::EditDocument => m.inside_symbol,
        Command::DeleteLayer => m.layer_count > 1,
        Command::AddCameraKeyframe | Command::RemoveCameraKeyframe | Command::ResetCamera => m.camera_on,
        Command::Cut | Command::Copy | Command::Delete | Command::DuplicateSelection
        | Command::Deselect | Command::EditSymbol | Command::BakeModifiers
        | Command::ClearModifiers | Command::SetReverse | Command::ClearReverse
        | Command::ConvertToSymbol | Command::GroupSelection | Command::UngroupSelection
        | Command::Align { .. } | Command::Distribute(_) | Command::MatchSize(_)
        | Command::BringToFront | Command::BringForward | Command::SendBackward
        | Command::SendToBack | Command::BrushFromSelection | Command::ConvertLinesToFills
        | Command::ExpandFill | Command::SmoothSelection | Command::StraightenSelection
        | Command::RecogniseShape | Command::FlipHorizontal | Command::FlipVertical
        | Command::RotateClockwise | Command::RotateAnticlockwise => m.has_selection,
        _ => true,
    }
}

/// Can `command` be chosen from the menus right now?
pub fn menu_enabled(command: Command, m: MenuContext) -> (r: bool)
    ensures
        r == menu_enabled_spec(command, m),
{
    match command {
        Command::Undo => m.can_undo,
        Command::Redo => m.can_redo,
        Command::EditDocument => m.inside_symbol,
        Command::DeleteLayer => m.layer_count > 1,
        Command::AddCameraKeyframe | Command::RemoveCameraKeyframe | Command::ResetCamera => m.camera_on,
        Command::Cut | Command::Copy | Command::Delete | Command::DuplicateSelection
        | Command::Deselect | Command::EditSymbol | Command::BakeModifiers
        | Command::ClearModifiers | Command::SetReverse | Command::ClearReverse
        | Command::ConvertToSymbol | Command::GroupSelection | Command::UngroupSelection
        | Command::Align { .. } | Command::Distribute(_) | Command::MatchSize(_)
        | Command::BringToFront | Command::BringForward | Command::SendBackward
        | Command::SendToBack | Command::BrushFromSelection | Command::ConvertLinesToFills
        | Command::ExpandFill | Command::SmoothSelection | Command::StraightenSelection
        | Command::RecogniseShape | Command::FlipHorizontal | Command::FlipVertical
        | Command::RotateClockwise | Command::RotateAnticlockwise => m.has_selection,
        _ => true,
    }
}

pub open spec fn mark_spec(on: bool) -> Seq<char> {
    if on {
        "\u{2714} "@
    } else {
        "   "@
    }
}

/// The tick a toggling item wears when it is on, and the room it takes when
/// it is off, so the labels line up either way.
pub fn mark(on: bool) -> (r: &'static str)
    ensures
        r@ == mark_spec(on),
{
    if on {
        "\u{2714} "
    } else {
        "   "
    }
}

/// **Whatever the menus offer that needs a selection is greyed without one**,
/// and Paste, which brings its own, never is.
pub proof fn selection_commands_wait_for_a_selection(c: Command, m: MenuContext)
    requires
        !m.has_selection,
        c.needs_selection_spec(),
        !(c is Nudge),
    ensures
        !menu_enabled_spec(c, m),
        menu_enabled_spec(Command::Paste, m),
{
}

/// **An item greyed for want of a selection comes back with one**: with
/// everything else the same, selecting something never greys an item.
pub proof fn selecting_never_greys_an_item(c: Command, m: MenuContext)
    requires
        menu_enabled_spec(c, m),
    ensures
        menu_enabled_spec(c, MenuContext { has_selection: true, ..m }),
{
}

/// **Undo and Redo follow the history alone**: Undo can be chosen exactly
/// when there is something to undo and Redo exactly when there is something
/// to redo, whatever else the editor is doing — redoing after everything has
/// been undone included.
pub proof fn undo_and_redo_follow_the_history(m: MenuContext, n: MenuContext)
    ensures
        menu_enabled_spec(Command::Undo, m) == m.can_undo,
        menu_enabled_spec(Command::Redo, m) == m.can_redo,
        m.can_undo == n.can_undo ==> menu_enabled_spec(Command::Undo, m) == menu_enabled_spec(
            Command::Undo,
            n,
        ),
        m.can_redo == n.can_redo ==> menu_enabled_spec(Command::Redo, m) == menu_enabled_spec(
            Command::Redo,
            n,
        ),
{
}

} // verus!
