//! Editor commands and their shortcuts.
//!
//! Menus, keyboard shortcuts and toolbar buttons all raise the same
//! [`Command`]. Keeping one enumeration means a menu item and its shortcut can
//! never drift apart, and the whole key map can be checked without a window:
//! [`shortcuts_do_not_collide`] and [`every_shortcut_is_in_the_palette`] are
//! proved here over every command there is.
//!
//! Shortcuts follow Animate's defaults. Where a user would reach for a key out
//! of habit, it does what they expect.

use vstd::prelude::*;

use crate::align::{Align, Distribute, MatchSize};

verus! {

/// A key on the keyboard, as a shortcut names it. The keys the default map
/// uses, named as the windowing layer names them.
#[derive(Debug, Clone, Copy, PartialEq, Eq, Hash, Structural)]
pub enum Key {
    A,
    ArrowDown,
    ArrowUp,
    Backspace,
    C,
    CloseBracket,
    Comma,
    D,
    Delete,
    E,
    End,
    Enter,
    Equals,
    F,
    F4,
    F5,
    F6,
    F7,
    F8,
    F9,
    G,
    Home,
    L,
    Minus,
    N,
    Num1,
    Num2,
    Num3,
    Num7,
    Num9,
    O,
    OpenBracket,
    Period,
    Q,
    Quote,
    R,
    S,
    Semicolon,
    U,
    V,
    W,
    X,
    Z,
}

/// Which modifier keys a shortcut holds down.
#[derive(Debug, Clone, Copy, PartialEq, Eq, Hash, Structural)]
pub struct Modifiers {
    pub alt: bool,
    pub ctrl: bool,
    pub shift: bool,
}

/// A key with its modifiers: what a menu shows beside a command.
#[derive(Debug, Clone, Copy, PartialEq, Eq, Hash, Structural)]
pub struct KeyboardShortcut {
    pub modifiers: Modifiers,
    pub logical_key: Key,
}

/// A panel of the workspace, by its place in the workspace's own list.
#[derive(Debug, Clone, Copy, PartialEq, Eq, Hash, Structural)]
pub struct PanelId(pub u32);

/// An interface theme, by its place in the list of themes.
#[derive(Debug, Clone, Copy, PartialEq, Eq, Hash, Structural)]
pub struct Theme(pub u32);

/// A drawing tool, by its place in the tool strip.
#[derive(Debug, Clone, Copy, PartialEq, Eq, Hash, Structural)]
pub struct ToolId(pub u32);

/// A named camera move — a push in, a pan, a reveal — carried on the command
/// with the name it is offered under.
#[derive(Debug, Clone, Copy, PartialEq, Eq, Hash)]
pub struct CameraMove {
    pub label: &'static str,
}

/// How far one arrow press moves the selection, and how far with Shift.
pub const NUDGE_STEP: i32 = 1;
pub const NUDGE_STEP_LARGE: i32 = 8;

/// Everything the editor can be asked to do.
#[derive(Debug, Clone, Copy, PartialEq, Eq, Hash)]
pub enum Command {
    // File
    New,
    Open,
    Save,
    SaveAs,
    Close,
    Quit,
    /// Import an Animate document's symbols into the library.
    ImportToLibrary,
    /// Import an Animate document onto the stage as well as the library.
    ImportToStage,
    /// Write the document back out as an Adobe Animate `.fla`.
    ///
    /// Import was one-way, which makes this somewhere work goes to be finished
    /// rather than a place in a pipeline. A studio, a client or a shelf of
    /// Animate tooling all need the file to be able to go back.
    ExportFla,
    /// Write the current frame out as a PNG.
    ExportImage,
    /// Write a numbered PNG for every frame in a range.
    ExportSequence,
    /// Render the film as an MP4 or MOV. CP-6.2.
    ExportVideo,
    /// Render the film as an animated GIF. CP-6.3.
    ExportGif,
    /// Render the film as an animated WebP. CP-6.3.
    ExportWebp,
    /// Bring a sound file into the library.
    ImportSound,
    /// Bring a bitmap onto the stage, already broken apart into artwork.
    ImportImage,
    /// Put the library's selected sound on the current keyframe.
    AttachSound,
    /// Take the sound off the current keyframe.
    RemoveSound,
    /// Open the Lip Sync dialog for the document's soundtrack.
    LipSync,
    /// Make a mouth symbol with a frame per shape, to draw over.
    NewMouthSymbol,
    /// Mark the soundtrack's beats on the timeline ruler.
    DetectBeats,
    /// **Lay the timeline out to the narration**: find where the voice-over
    /// speaks and where it breathes, stretch the film to cover it, and put a
    /// keyframe at the start of every line.
    FitToNarration,
    /// **Read a subtitle file onto the timeline**: a caption layer with the
    /// words keyed to their own timecodes.
    ImportCaptions,
    /// **Write the caption layer back out as `.srt`**, to upload beside the
    /// film.
    ExportCaptions,

    // Edit
    Undo,
    Redo,
    Cut,
    Copy,
    Paste,
    Delete,
    SelectAll,
    Deselect,
    DuplicateSelection,

    // View
    ZoomIn,
    ZoomOut,
    ZoomActual,
    ZoomFitInWindow,
    ZoomShowFrame,
    ZoomShowAll,
    ToggleRulers,
    ToggleGrid,
    ToggleGuides,
    ToggleSnapping,
    TogglePasteboard,

    // Modify
    GroupSelection,
    UngroupSelection,
    BringToFront,
    BringForward,
    SendBackward,
    SendToBack,
    /// **Retarget a performance**: copy one rig's poses onto another with the
    /// same skeleton, so one walk drives a whole cast.
    RetargetPerformance,
    /// **Swap symbol**: point every instance of one symbol at another, keeping
    /// where each stands and how big it is.
    SwapSymbol,
    /// **Ink and paint**: carry this frame's bucket fills onto every keyframe
    /// after it, seeded where each colour already sits.
    PaintThrough,
    /// **On twos**: hold each drawing for two frames over the selected span,
    /// which halves the drawings a shot needs.
    ExposeOnTwos,
    /// The same, on threes.
    ExposeOnThrees,
    /// **Select same colour**: everything on this frame painted the colour the
    /// selection is painted.
    SelectSameColour,
    /// **Thicken the outlines** of everything selected, leaving the fills and
    /// the shapes themselves alone.
    ///
    /// A step rather than a number, because weighting a drawing is something an
    /// animator does *by eye against the rest of the drawing* — press it until
    /// it looks right — and stopping to type a width in a box breaks exactly
    /// the comparison being made. Multiplicative rather than additive, so one
    /// press means the same thing on a hairline and on a heavy outline.
    ThickenStroke,
    /// The same, thinner.
    ThinStroke,
    /// **Trace a bitmap into shapes** — Animate's Modify ▸ Bitmap ▸ Trace
    /// Bitmap. The picture is replaced by the artwork it becomes, so one undo
    /// puts the photograph back.
    TraceBitmap,
    /// The same, tuned for **a scan of a drawing**: ink and paper, and the
    /// paper thrown away, so what is left is outlines you can paint inside.
    TraceLineArt,
    ConvertLinesToFills,
    ExpandFill,
    SmoothSelection,
    StraightenSelection,
    /// Modify ▸ Shape ▸ Recognise Shape: turn a drawn wobble into the circle,
    /// rectangle or line it was meant to be.
    RecogniseShape,
    /// Modify ▸ Transform ▸ Flip Horizontal.
    FlipHorizontal,
    /// Modify ▸ Transform ▸ Flip Vertical.
    FlipVertical,
    /// Modify ▸ Transform ▸ Rotate 90° Clockwise.
    RotateClockwise,
    /// Modify ▸ Transform ▸ Rotate 90° Counter-clockwise.
    RotateAnticlockwise,

    // Insert
    NewLayer,
    NewLayerFolder,
    /// A guide layer for reference art (rotoscoping): shown faded, never
    /// exported. Import an image onto it to trace over.
    NewReferenceLayer,
    /// **Import a video to trace over**: one frame of it per frame of the film,
    /// on a guide layer.
    ImportVideoReference,
    /// **Import an image sequence**: a folder of numbered pictures, one drawing
    /// to a frame.
    ImportSequenceFolder,
    DeleteLayer,

    // Symbols and library
    /// Wrap the selection in a new symbol, replacing it with an instance.
    ConvertToSymbol,
    /// Create an empty symbol and open it for editing.
    NewSymbol,
    /// Open the selected instance's symbol for editing.
    EditSymbol,
    /// Leave symbol editing and return to the main timeline.
    EditDocument,
    /// Place an instance of the library selection on the stage.
    PlaceInstance,
    DuplicateSymbol,
    DeleteSymbol,
    NewLibraryFolder,

    /// Adopt the selected artwork as the pattern brush's shape.
    BrushFromSelection,

    // Workspace
    /// Show or hide a panel.
    TogglePanel(PanelId),
    /// Stop the layout being rearranged by accident.
    ToggleLayoutLock,
    /// Step to the next interface theme, wrapping. The keyboard's way in;
    /// the Window menu offers them by name instead.
    ToggleTheme,
    /// Use this interface theme.
    SetTheme(Theme),
    /// Help ▸ About BuzzAnimate.
    About,
    /// Put every panel back where it started.
    ResetWorkspace,
    /// Keep the document as it is now under a name, to come back to.
    SaveSnapshot,
    /// Open the list of saved snapshots, to restore one.
    Snapshots,
    /// Open the keyboard-shortcut editor.
    ShortcutEditor,

    // Lighting
    /// Add a sun: one direction for the whole stage.
    AddSun,
    /// Add a sky: ambient fill, casting nothing.
    AddSky,
    /// Add a lamp: a point on the stage, with falloff.
    AddLamp,
    /// Add a gloom: a wide wall of darkness thrown across the stage, aimed
    /// against whatever light is already there.
    AddGloom,
    /// Add a fire: a lamp that gutters, in the colour of a hearth.
    AddFire,
    /// Add a storm: a dark sky that strikes, every few seconds, for ever.
    AddStorm,
    /// Show or hide the light handles on the stage.
    ToggleLightGizmos,

    // Staging and performance
    /// **Set a scene**: ground, backdrop, lights and a cast standing in it.
    ///
    /// Not a template and not clip art — the arrangement, which is the part
    /// that is arithmetic rather than drawing.
    SetScene,
    /// **Direct a story**: a few lines of prose in, a staged scene with the
    /// walks and talks already on the timeline.
    DirectScene,
    /// A new, empty scene after this one — the next shot of the film.
    AddScene,
    /// A complete copy of this scene, opened for editing. What the next beat
    /// of a conversation starts from.
    DuplicateScene,
    /// Put one more rigged person on the stage, on a layer of their own.
    AddPerson,
    /// **Animate the selected rig**: a walk, a run, talking, or standing and
    /// breathing, written onto the timeline as ordinary poses.
    Perform,
    /// **Add follow-through**: bake a damped-spring response of a chosen chain
    /// (hair, a tail) to the selected rig's keyed motion.
    AddFollowThrough,
    /// **Add wiggle**: bake a deterministic jitter onto the selected object — an
    /// idle sway, a breeze, a handheld shake.
    AddWiggle,
    /// **Clear modifiers**: remove all live modifiers from the selected object.
    ClearModifiers,
    /// **Bake modifiers**: evaluate the selected object's live modifiers across
    /// the film into keyframes, then remove them — live becomes editable.
    BakeModifiers,
    /// **Set reverse drawing**: make the second selected object the back view of
    /// the first, shown when it is turned to face away.
    SetReverse,
    /// **Clear reverse drawing**: remove the selected object's whole turnaround.
    ClearReverse,
    /// **Add a profile view**: make the second selected object the drawing shown
    /// when the first is turned a quarter turn to its right.
    AddProfileRight,
    /// The same, a quarter turn to its left.
    AddProfileLeft,
    /// **Add a three-quarter view**: the drawing shown part way between the
    /// front and a profile, which is where most acting happens.
    AddThreeQuarterRight,
    /// The same, on the other side.
    AddThreeQuarterLeft,

    // Commands (scripting)
    /// Show or hide the Actions panel.
    ToggleActionsPanel,
    /// Run what is in the Actions panel against this document.
    RunScript,
    /// Empty the Actions panel's Output area.
    ClearScriptOutput,

    // Tweens
    CreateClassicTween,
    CreateMotionTween,
    CreateShapeTween,
    RemoveTween,

    // Timeline
    InsertFrame,
    RemoveFrame,
    InsertKeyframe,
    InsertBlankKeyframe,
    ClearKeyframe,
    PlayPause,
    NextFrame,
    PreviousFrame,
    FirstFrame,
    LastFrame,
    /// Animate's Cut Frames.
    CutFrames,
    /// Animate's Copy Frames.
    CopyFrames,
    /// Animate's Paste Frames.
    PasteFrames,
    /// Empty the frames here, keeping the span — Animate's Clear Frames.
    ClearFrames,
    /// Play this layer's keyframes back to front.
    ReverseFrames,
    ToggleOnionSkin,
    ToggleAutoKeyframe,
    ToggleEditMultipleFrames,

    // Camera
    ToggleCamera,
    AddCameraKeyframe,
    RemoveCameraKeyframe,
    ResetCamera,
    /// **Write a named camera move** from the playhead: a push in, a pan, a
    /// reveal, a drift. Two ordinary eased camera keys, which is what the
    /// animator would have typed. See `CameraMove`.
    ///
    /// The move is carried on the command rather than read from a panel,
    /// for the same reason `Align` carries `to_stage`: which move it is *is*
    /// the operation, and a command that did a different thing depending on
    /// hidden state is a command you cannot predict.
    AddCameraMove(CameraMove),

    // Lights
    /// Key the selected light's current state at the playhead.
    AddLightKeyframe,
    /// Remove the selected light's key at the playhead.
    RemoveLightKeyframe,

    // Tools
    SelectTool(ToolId),

    /// Keep this document as a starting point for the next film.
    SaveAsTemplate,
    /// Start a document from a saved template. The index is into the list the
    /// menu was drawn from, which is the same list the editor holds.
    NewFromTemplate(usize),

    /// Line the selection up. Animate's Modify ▸ Align.
    ///
    /// `to_stage` is carried on the command rather than read from a panel
    /// toggle, because it changes what the operation *means* — towards each
    /// other, or towards the frame — and a command that did one or the other
    /// depending on hidden state is a command you cannot predict.
    Align { op: Align, to_stage: bool },
    Distribute(Distribute),
    MatchSize(MatchSize),

    /// Move the selection by whole document units, from the arrow keys.
    ///
    /// Carried as one command with a vector rather than four commands, because
    /// the four are the same action and a menu never shows any of them: this is
    /// a key, and the key says which way.
    Nudge { x: i32, y: i32 },}

/// How many commands the palette offers.
pub const PALETTE_LEN: usize = 132;

impl Command {
    /// The label a menu shows.
    pub open spec fn label_spec(self) -> Seq<char> {
        match self {
            Command::New => "New"@,
            Command::Open => "Open…"@,
            Command::Save => "Save"@,
            Command::SaveAs => "Save As…"@,
            Command::Close => "Close"@,
            Command::Quit => "Exit"@,
            Command::ImportToLibrary => "Import to Library…"@,
            Command::ImportToStage => "Import to Stage…"@,
            Command::ExportFla => "Export Animate Document (.fla)…"@,
            Command::ExportImage => "Export Image…"@,
            Command::ExportSequence => "Export PNG Sequence…"@,
            Command::ExportVideo => "Export Video…"@,
            Command::ExportGif => "Export GIF…"@,
            Command::ExportWebp => "Export WebP…"@,
            Command::ImportSound => "Import Sound…"@,
            Command::ImportImage => "Import Image…"@,
            Command::AttachSound => "Attach Sound to Frame"@,
            Command::RemoveSound => "Remove Sound from Frame"@,
            Command::LipSync => "Lip Sync…"@,
            Command::NewMouthSymbol => "New Mouth Symbol"@,
            Command::DetectBeats => "Detect Beats"@,
            Command::FitToNarration => "Fit to Narration"@,
            Command::ImportCaptions => "Import Captions (.srt)\u{2026}"@,
            Command::ExportCaptions => "Export Captions (.srt)\u{2026}"@,
            Command::Undo => "Undo"@,
            Command::Redo => "Redo"@,
            Command::Cut => "Cut"@,
            Command::Copy => "Copy"@,
            Command::Paste => "Paste"@,
            Command::Delete => "Delete"@,
            Command::SelectAll => "Select All"@,
            Command::Deselect => "Deselect All"@,
            Command::DuplicateSelection => "Duplicate"@,
            Command::ZoomIn => "Zoom In"@,
            Command::ZoomOut => "Zoom Out"@,
            Command::ZoomActual => "100%"@,
            Command::ZoomFitInWindow => "Fit in Window"@,
            Command::ZoomShowFrame => "Show Frame"@,
            Command::ZoomShowAll => "Show All"@,
            Command::ToggleRulers => "Rulers"@,
            Command::ToggleGrid => "Grid"@,
            Command::ToggleGuides => "Guides"@,
            Command::ToggleSnapping => "Snap to Objects"@,
            Command::TogglePasteboard => "Pasteboard"@,
            Command::GroupSelection => "Group"@,
            Command::UngroupSelection => "Ungroup"@,
            Command::BringToFront => "Bring to Front"@,
            Command::BringForward => "Bring Forward"@,
            Command::SendBackward => "Send Backward"@,
            Command::SendToBack => "Send to Back"@,
            Command::RetargetPerformance => "Retarget Performance"@,
            Command::SwapSymbol => "Swap Symbol"@,
            Command::PaintThrough => "Paint Through"@,
            Command::ExposeOnTwos => "On Twos"@,
            Command::ExposeOnThrees => "On Threes"@,
            Command::SelectSameColour => "Select Same Colour"@,
            Command::ThickenStroke => "Thicken Lines"@,
            Command::ThinStroke => "Thin Lines"@,
            Command::TraceBitmap => "Trace Bitmap"@,
            Command::TraceLineArt => "Trace as Line Art"@,
            Command::ConvertLinesToFills => "Convert Lines to Fills"@,
            Command::ExpandFill => "Expand Fill…"@,
            Command::SmoothSelection => "Smooth"@,
            Command::StraightenSelection => "Straighten"@,
            Command::RecogniseShape => "Recognise Shape"@,
            Command::FlipHorizontal => "Flip Horizontal"@,
            Command::FlipVertical => "Flip Vertical"@,
            Command::RotateClockwise => "Rotate 90\u{b0} CW"@,
            Command::RotateAnticlockwise => "Rotate 90\u{b0} CCW"@,
            Command::NewLayer => "New Layer"@,
            Command::NewLayerFolder => "New Folder"@,
            Command::NewReferenceLayer => "New Reference Layer"@,
            Command::ImportVideoReference => "Import Video Reference\u{2026}"@,
            Command::ImportSequenceFolder => "Import Image Sequence\u{2026}"@,
            Command::DeleteLayer => "Delete Layer"@,
            Command::ConvertToSymbol => "Convert to Symbol…"@,
            Command::NewSymbol => "New Symbol…"@,
            Command::EditSymbol => "Edit Symbol"@,
            Command::EditDocument => "Edit Document"@,
            Command::PlaceInstance => "Place on Stage"@,
            Command::DuplicateSymbol => "Duplicate Symbol"@,
            Command::DeleteSymbol => "Delete Symbol"@,
            Command::NewLibraryFolder => "New Library Folder"@,
            Command::BrushFromSelection => "Create Brush From Selection"@,
            Command::TogglePanel(_) => "Panel"@,
            Command::ToggleLayoutLock => "Lock Layout"@,
            Command::ToggleTheme => "Next Theme"@,
            Command::SetTheme(_) => "Theme"@,
            Command::About => "About BuzzAnimate"@,
            Command::ResetWorkspace => "Reset Layout"@,
            Command::SaveSnapshot => "Save Snapshot"@,
            Command::Snapshots => "Snapshots\u{2026}"@,
            Command::ShortcutEditor => "Keyboard Shortcuts\u{2026}"@,
            Command::AddSun => "Sun"@,
            Command::AddSky => "Sky"@,
            Command::AddLamp => "Lamp"@,
            Command::AddGloom => "Gloom"@,
            Command::AddFire => "Fire"@,
            Command::AddStorm => "Storm"@,
            Command::ToggleLightGizmos => "Light Handles"@,
            Command::SetScene => "Set the Scene\u{2026}"@,
            Command::DirectScene => "Direct a Story\u{2026}"@,
            Command::AddScene => "Add Scene"@,
            Command::DuplicateScene => "Duplicate Scene"@,
            Command::AddPerson => "Add Person"@,
            Command::Perform => "Animate Selection\u{2026}"@,
            Command::AddFollowThrough => "Add Follow-Through\u{2026}"@,
            Command::AddWiggle => "Add Wiggle\u{2026}"@,
            Command::ClearModifiers => "Clear Modifiers"@,
            Command::BakeModifiers => "Bake Modifiers"@,
            Command::SetReverse => "Set Reverse Drawing"@,
            Command::ClearReverse => "Clear Turnaround"@,
            Command::AddProfileRight => "Add Profile (right)"@,
            Command::AddProfileLeft => "Add Profile (left)"@,
            Command::AddThreeQuarterRight => "Add Three-Quarter (right)"@,
            Command::AddThreeQuarterLeft => "Add Three-Quarter (left)"@,
            Command::ToggleActionsPanel => "Actions"@,
            Command::RunScript => "Run Script"@,
            Command::ClearScriptOutput => "Clear Output"@,
            Command::CreateClassicTween => "Create Classic Tween"@,
            Command::CreateMotionTween => "Create Motion Tween"@,
            Command::CreateShapeTween => "Create Shape Tween"@,
            Command::RemoveTween => "Remove Tween"@,
            Command::InsertFrame => "Insert Frame"@,
            Command::RemoveFrame => "Remove Frame"@,
            Command::InsertKeyframe => "Insert Keyframe"@,
            Command::InsertBlankKeyframe => "Insert Blank Keyframe"@,
            Command::ClearKeyframe => "Clear Keyframe"@,
            Command::PlayPause => "Play/Pause"@,
            Command::NextFrame => "Next Frame"@,
            Command::PreviousFrame => "Previous Frame"@,
            Command::FirstFrame => "First Frame"@,
            Command::LastFrame => "Last Frame"@,
            Command::CutFrames => "Cut Frames"@,
            Command::CopyFrames => "Copy Frames"@,
            Command::PasteFrames => "Paste Frames"@,
            Command::ClearFrames => "Clear Frames"@,
            Command::ReverseFrames => "Reverse Frames"@,
            Command::ToggleOnionSkin => "Onion Skin"@,
            Command::ToggleAutoKeyframe => "Auto Keyframe"@,
            Command::ToggleEditMultipleFrames => "Edit Multiple Frames"@,
            Command::ToggleCamera => "Enable Camera"@,
            Command::AddCameraKeyframe => "Add Camera Keyframe"@,
            Command::RemoveCameraKeyframe => "Remove Camera Keyframe"@,
            Command::AddLightKeyframe => "Add Light Keyframe"@,
            Command::RemoveLightKeyframe => "Remove Light Keyframe"@,
            Command::ResetCamera => "Reset Camera"@,
            Command::AddCameraMove(m) => m.label@,
            Command::SelectTool(_) => "Tool"@,
            Command::Nudge { .. } => "Nudge"@,
            Command::SaveAsTemplate => "Save as Template"@,
            Command::NewFromTemplate(_) => "New from Template"@,
            Command::Align { op, .. } => op.label_spec(),
            Command::Distribute(op) => op.label_spec(),
            Command::MatchSize(op) => op.label_spec(),
        }
    }

    /// Label as it appears in a menu.
    pub fn label(self) -> (r: &'static str)
        ensures
            r@ == self.label_spec(),
    {
        match self {
            Command::New => "New",
            Command::Open => "Open…",
            Command::Save => "Save",
            Command::SaveAs => "Save As…",
            Command::Close => "Close",
            Command::Quit => "Exit",
            Command::ImportToLibrary => "Import to Library…",
            Command::ImportToStage => "Import to Stage…",
            Command::ExportFla => "Export Animate Document (.fla)…",
            Command::ExportImage => "Export Image…",
            Command::ExportSequence => "Export PNG Sequence…",
            Command::ExportVideo => "Export Video…",
            Command::ExportGif => "Export GIF…",
            Command::ExportWebp => "Export WebP…",
            Command::ImportSound => "Import Sound…",
            Command::ImportImage => "Import Image…",
            Command::AttachSound => "Attach Sound to Frame",
            Command::RemoveSound => "Remove Sound from Frame",
            Command::LipSync => "Lip Sync…",
            Command::NewMouthSymbol => "New Mouth Symbol",
            Command::DetectBeats => "Detect Beats",
            Command::FitToNarration => "Fit to Narration",
            Command::ImportCaptions => "Import Captions (.srt)\u{2026}",
            Command::ExportCaptions => "Export Captions (.srt)\u{2026}",
            Command::Undo => "Undo",
            Command::Redo => "Redo",
            Command::Cut => "Cut",
            Command::Copy => "Copy",
            Command::Paste => "Paste",
            Command::Delete => "Delete",
            Command::SelectAll => "Select All",
            Command::Deselect => "Deselect All",
            Command::DuplicateSelection => "Duplicate",
            Command::ZoomIn => "Zoom In",
            Command::ZoomOut => "Zoom Out",
            Command::ZoomActual => "100%",
            Command::ZoomFitInWindow => "Fit in Window",
            Command::ZoomShowFrame => "Show Frame",
            Command::ZoomShowAll => "Show All",
            Command::ToggleRulers => "Rulers",
            Command::ToggleGrid => "Grid",
            Command::ToggleGuides => "Guides",
            Command::ToggleSnapping => "Snap to Objects",
            Command::TogglePasteboard => "Pasteboard",
            Command::GroupSelection => "Group",
            Command::UngroupSelection => "Ungroup",
            Command::BringToFront => "Bring to Front",
            Command::BringForward => "Bring Forward",
            Command::SendBackward => "Send Backward",
            Command::SendToBack => "Send to Back",
            Command::RetargetPerformance => "Retarget Performance",
            Command::SwapSymbol => "Swap Symbol",
            Command::PaintThrough => "Paint Through",
            Command::ExposeOnTwos => "On Twos",
            Command::ExposeOnThrees => "On Threes",
            Command::SelectSameColour => "Select Same Colour",
            Command::ThickenStroke => "Thicken Lines",
            Command::ThinStroke => "Thin Lines",
            Command::TraceBitmap => "Trace Bitmap",
            Command::TraceLineArt => "Trace as Line Art",
            Command::ConvertLinesToFills => "Convert Lines to Fills",
            Command::ExpandFill => "Expand Fill…",
            Command::SmoothSelection => "Smooth",
            Command::StraightenSelection => "Straighten",
            Command::RecogniseShape => "Recognise Shape",
            Command::FlipHorizontal => "Flip Horizontal",
            Command::FlipVertical => "Flip Vertical",
            Command::RotateClockwise => "Rotate 90\u{b0} CW",
            Command::RotateAnticlockwise => "Rotate 90\u{b0} CCW",
            Command::NewLayer => "New Layer",
            Command::NewLayerFolder => "New Folder",
            Command::NewReferenceLayer => "New Reference Layer",
            Command::ImportVideoReference => "Import Video Reference\u{2026}",
            Command::ImportSequenceFolder => "Import Image Sequence\u{2026}",
            Command::DeleteLayer => "Delete Layer",
            Command::ConvertToSymbol => "Convert to Symbol…",
            Command::NewSymbol => "New Symbol…",
            Command::EditSymbol => "Edit Symbol",
            Command::EditDocument => "Edit Document",
            Command::PlaceInstance => "Place on Stage",
            Command::DuplicateSymbol => "Duplicate Symbol",
            Command::DeleteSymbol => "Delete Symbol",
            Command::NewLibraryFolder => "New Library Folder",
            Command::BrushFromSelection => "Create Brush From Selection",
            Command::TogglePanel(_) => "Panel",
            Command::ToggleLayoutLock => "Lock Layout",
            Command::ToggleTheme => "Next Theme",
            Command::SetTheme(_) => "Theme",
            Command::About => "About BuzzAnimate",
            Command::ResetWorkspace => "Reset Layout",
            Command::SaveSnapshot => "Save Snapshot",
            Command::Snapshots => "Snapshots\u{2026}",
            Command::ShortcutEditor => "Keyboard Shortcuts\u{2026}",
            Command::AddSun => "Sun",
            Command::AddSky => "Sky",
            Command::AddLamp => "Lamp",
            Command::AddGloom => "Gloom",
            Command::AddFire => "Fire",
            Command::AddStorm => "Storm",
            Command::ToggleLightGizmos => "Light Handles",
            Command::SetScene => "Set the Scene\u{2026}",
            Command::DirectScene => "Direct a Story\u{2026}",
            Command::AddScene => "Add Scene",
            Command::DuplicateScene => "Duplicate Scene",
            Command::AddPerson => "Add Person",
            Command::Perform => "Animate Selection\u{2026}",
            Command::AddFollowThrough => "Add Follow-Through\u{2026}",
            Command::AddWiggle => "Add Wiggle\u{2026}",
            Command::ClearModifiers => "Clear Modifiers",
            Command::BakeModifiers => "Bake Modifiers",
            Command::SetReverse => "Set Reverse Drawing",
            Command::ClearReverse => "Clear Turnaround",
            Command::AddProfileRight => "Add Profile (right)",
            Command::AddProfileLeft => "Add Profile (left)",
            Command::AddThreeQuarterRight => "Add Three-Quarter (right)",
            Command::AddThreeQuarterLeft => "Add Three-Quarter (left)",
            Command::ToggleActionsPanel => "Actions",
            Command::RunScript => "Run Script",
            Command::ClearScriptOutput => "Clear Output",
            Command::CreateClassicTween => "Create Classic Tween",
            Command::CreateMotionTween => "Create Motion Tween",
            Command::CreateShapeTween => "Create Shape Tween",
            Command::RemoveTween => "Remove Tween",
            Command::InsertFrame => "Insert Frame",
            Command::RemoveFrame => "Remove Frame",
            Command::InsertKeyframe => "Insert Keyframe",
            Command::InsertBlankKeyframe => "Insert Blank Keyframe",
            Command::ClearKeyframe => "Clear Keyframe",
            Command::PlayPause => "Play/Pause",
            Command::NextFrame => "Next Frame",
            Command::PreviousFrame => "Previous Frame",
            Command::FirstFrame => "First Frame",
            Command::LastFrame => "Last Frame",
            Command::CutFrames => "Cut Frames",
            Command::CopyFrames => "Copy Frames",
            Command::PasteFrames => "Paste Frames",
            Command::ClearFrames => "Clear Frames",
            Command::ReverseFrames => "Reverse Frames",
            Command::ToggleOnionSkin => "Onion Skin",
            Command::ToggleAutoKeyframe => "Auto Keyframe",
            Command::ToggleEditMultipleFrames => "Edit Multiple Frames",
            Command::ToggleCamera => "Enable Camera",
            Command::AddCameraKeyframe => "Add Camera Keyframe",
            Command::RemoveCameraKeyframe => "Remove Camera Keyframe",
            Command::AddLightKeyframe => "Add Light Keyframe",
            Command::RemoveLightKeyframe => "Remove Light Keyframe",
            Command::ResetCamera => "Reset Camera",
            Command::AddCameraMove(m) => m.label,
            Command::SelectTool(_) => "Tool",
            Command::Nudge { .. } => "Nudge",
            Command::SaveAsTemplate => "Save as Template",
            Command::NewFromTemplate(_) => "New from Template",
            Command::Align { op, .. } => op.label(),
            Command::Distribute(op) => op.label(),
            Command::MatchSize(op) => op.label(),
        }
    }

    /// Animate's default shortcut, if it has one.
    pub open spec fn shortcut_spec(self) -> Option<KeyboardShortcut> {
        match self {
            Command::New => Some(KeyboardShortcut { modifiers: Modifiers { alt: false, ctrl: true, shift: false }, logical_key: Key::N }),
            Command::Open => Some(KeyboardShortcut { modifiers: Modifiers { alt: false, ctrl: true, shift: false }, logical_key: Key::O }),
            Command::Save => Some(KeyboardShortcut { modifiers: Modifiers { alt: false, ctrl: true, shift: false }, logical_key: Key::S }),
            Command::SaveAs => Some(KeyboardShortcut { modifiers: Modifiers { alt: false, ctrl: true, shift: true }, logical_key: Key::S }),
            Command::Close => Some(KeyboardShortcut { modifiers: Modifiers { alt: false, ctrl: true, shift: false }, logical_key: Key::W }),
            Command::Quit => Some(KeyboardShortcut { modifiers: Modifiers { alt: false, ctrl: true, shift: false }, logical_key: Key::Q }),
            Command::ImportToLibrary => Some(KeyboardShortcut { modifiers: Modifiers { alt: false, ctrl: true, shift: true }, logical_key: Key::R }),
            Command::ImportToStage => Some(KeyboardShortcut { modifiers: Modifiers { alt: false, ctrl: true, shift: false }, logical_key: Key::R }),
            Command::ExportFla => None,
            Command::ExportImage => None,
            Command::ExportSequence => None,
            Command::ExportVideo => None,
            Command::ExportGif => None,
            Command::ExportWebp => None,
            Command::ImportSound => None,
            Command::ImportImage => None,
            Command::AttachSound => None,
            Command::RemoveSound => None,
            Command::LipSync => None,
            Command::NewMouthSymbol => None,
            Command::DetectBeats => None,
            Command::FitToNarration => None,
            Command::ImportCaptions => None,
            Command::ExportCaptions => None,
            Command::Undo => Some(KeyboardShortcut { modifiers: Modifiers { alt: false, ctrl: true, shift: false }, logical_key: Key::Z }),
            Command::Redo => Some(KeyboardShortcut { modifiers: Modifiers { alt: false, ctrl: true, shift: true }, logical_key: Key::Z }),
            Command::Cut => Some(KeyboardShortcut { modifiers: Modifiers { alt: false, ctrl: true, shift: false }, logical_key: Key::X }),
            Command::Copy => Some(KeyboardShortcut { modifiers: Modifiers { alt: false, ctrl: true, shift: false }, logical_key: Key::C }),
            Command::Paste => Some(KeyboardShortcut { modifiers: Modifiers { alt: false, ctrl: true, shift: false }, logical_key: Key::V }),
            Command::Delete => Some(KeyboardShortcut { modifiers: Modifiers { alt: false, ctrl: false, shift: false }, logical_key: Key::Delete }),
            Command::SelectAll => Some(KeyboardShortcut { modifiers: Modifiers { alt: false, ctrl: true, shift: false }, logical_key: Key::A }),
            Command::Deselect => Some(KeyboardShortcut { modifiers: Modifiers { alt: false, ctrl: true, shift: true }, logical_key: Key::A }),
            Command::DuplicateSelection => Some(KeyboardShortcut { modifiers: Modifiers { alt: false, ctrl: true, shift: false }, logical_key: Key::D }),
            Command::ZoomIn => Some(KeyboardShortcut { modifiers: Modifiers { alt: false, ctrl: true, shift: false }, logical_key: Key::Equals }),
            Command::ZoomOut => Some(KeyboardShortcut { modifiers: Modifiers { alt: false, ctrl: true, shift: false }, logical_key: Key::Minus }),
            Command::ZoomActual => Some(KeyboardShortcut { modifiers: Modifiers { alt: false, ctrl: true, shift: false }, logical_key: Key::Num1 }),
            Command::ZoomFitInWindow => Some(KeyboardShortcut { modifiers: Modifiers { alt: false, ctrl: true, shift: false }, logical_key: Key::Num3 }),
            Command::ZoomShowFrame => Some(KeyboardShortcut { modifiers: Modifiers { alt: false, ctrl: true, shift: false }, logical_key: Key::Num2 }),
            Command::ZoomShowAll => Some(KeyboardShortcut { modifiers: Modifiers { alt: false, ctrl: true, shift: true }, logical_key: Key::W }),
            Command::ToggleRulers => Some(KeyboardShortcut { modifiers: Modifiers { alt: true, ctrl: true, shift: true }, logical_key: Key::R }),
            Command::ToggleGrid => Some(KeyboardShortcut { modifiers: Modifiers { alt: false, ctrl: true, shift: false }, logical_key: Key::Quote }),
            Command::ToggleGuides => Some(KeyboardShortcut { modifiers: Modifiers { alt: false, ctrl: true, shift: false }, logical_key: Key::Semicolon }),
            Command::ToggleSnapping => Some(KeyboardShortcut { modifiers: Modifiers { alt: false, ctrl: true, shift: true }, logical_key: Key::U }),
            Command::TogglePasteboard => Some(KeyboardShortcut { modifiers: Modifiers { alt: false, ctrl: true, shift: true }, logical_key: Key::W }),
            Command::GroupSelection => Some(KeyboardShortcut { modifiers: Modifiers { alt: false, ctrl: true, shift: false }, logical_key: Key::G }),
            Command::UngroupSelection => Some(KeyboardShortcut { modifiers: Modifiers { alt: false, ctrl: true, shift: true }, logical_key: Key::G }),
            Command::BringToFront => Some(KeyboardShortcut { modifiers: Modifiers { alt: false, ctrl: true, shift: true }, logical_key: Key::ArrowUp }),
            Command::BringForward => Some(KeyboardShortcut { modifiers: Modifiers { alt: false, ctrl: true, shift: false }, logical_key: Key::ArrowUp }),
            Command::SendBackward => Some(KeyboardShortcut { modifiers: Modifiers { alt: false, ctrl: true, shift: false }, logical_key: Key::ArrowDown }),
            Command::SendToBack => Some(KeyboardShortcut { modifiers: Modifiers { alt: false, ctrl: true, shift: true }, logical_key: Key::ArrowDown }),
            Command::RetargetPerformance => None,
            Command::SwapSymbol => None,
            Command::PaintThrough => None,
            Command::ExposeOnTwos => None,
            Command::ExposeOnThrees => None,
            Command::SelectSameColour => None,
            Command::ThickenStroke => Some(KeyboardShortcut { modifiers: Modifiers { alt: false, ctrl: false, shift: false }, logical_key: Key::CloseBracket }),
            Command::ThinStroke => Some(KeyboardShortcut { modifiers: Modifiers { alt: false, ctrl: false, shift: false }, logical_key: Key::OpenBracket }),
            Command::TraceBitmap => None,
            Command::TraceLineArt => None,
            Command::ConvertLinesToFills => None,
            Command::ExpandFill => None,
            Command::SmoothSelection => None,
            Command::StraightenSelection => None,
            Command::RecogniseShape => None,
            Command::FlipHorizontal => None,
            Command::FlipVertical => None,
            Command::RotateClockwise => Some(KeyboardShortcut { modifiers: Modifiers { alt: false, ctrl: true, shift: true }, logical_key: Key::Num9 }),
            Command::RotateAnticlockwise => Some(KeyboardShortcut { modifiers: Modifiers { alt: false, ctrl: true, shift: true }, logical_key: Key::Num7 }),
            Command::NewLayer => Some(KeyboardShortcut { modifiers: Modifiers { alt: true, ctrl: true, shift: false }, logical_key: Key::N }),
            Command::NewLayerFolder => Some(KeyboardShortcut { modifiers: Modifiers { alt: true, ctrl: true, shift: false }, logical_key: Key::F }),
            Command::NewReferenceLayer => None,
            Command::ImportVideoReference => None,
            Command::ImportSequenceFolder => None,
            Command::DeleteLayer => None,
            Command::ConvertToSymbol => Some(KeyboardShortcut { modifiers: Modifiers { alt: false, ctrl: false, shift: false }, logical_key: Key::F8 }),
            Command::NewSymbol => Some(KeyboardShortcut { modifiers: Modifiers { alt: false, ctrl: true, shift: false }, logical_key: Key::F8 }),
            Command::EditSymbol => Some(KeyboardShortcut { modifiers: Modifiers { alt: false, ctrl: true, shift: false }, logical_key: Key::E }),
            Command::EditDocument => Some(KeyboardShortcut { modifiers: Modifiers { alt: false, ctrl: true, shift: false }, logical_key: Key::F4 }),
            Command::PlaceInstance => None,
            Command::DuplicateSymbol => None,
            Command::DeleteSymbol => None,
            Command::NewLibraryFolder => None,
            Command::BrushFromSelection => None,
            Command::TogglePanel(_) => None,
            Command::ToggleLayoutLock => Some(KeyboardShortcut { modifiers: Modifiers { alt: true, ctrl: true, shift: false }, logical_key: Key::L }),
            Command::ToggleTheme => None,
            Command::SetTheme(_) => None,
            Command::About => None,
            Command::ResetWorkspace => None,
            Command::SaveSnapshot => None,
            Command::Snapshots => None,
            Command::ShortcutEditor => None,
            Command::AddSun => None,
            Command::AddSky => None,
            Command::AddLamp => None,
            Command::AddGloom => None,
            Command::AddFire => None,
            Command::AddStorm => None,
            Command::ToggleLightGizmos => Some(KeyboardShortcut { modifiers: Modifiers { alt: false, ctrl: true, shift: true }, logical_key: Key::L }),
            Command::SetScene => None,
            Command::DirectScene => None,
            Command::AddScene => None,
            Command::DuplicateScene => None,
            Command::AddPerson => None,
            Command::Perform => None,
            Command::AddFollowThrough => None,
            Command::AddWiggle => None,
            Command::ClearModifiers => None,
            Command::BakeModifiers => None,
            Command::SetReverse => None,
            Command::ClearReverse => None,
            Command::AddProfileRight => None,
            Command::AddProfileLeft => None,
            Command::AddThreeQuarterRight => None,
            Command::AddThreeQuarterLeft => None,
            Command::ToggleActionsPanel => Some(KeyboardShortcut { modifiers: Modifiers { alt: false, ctrl: false, shift: false }, logical_key: Key::F9 }),
            Command::RunScript => Some(KeyboardShortcut { modifiers: Modifiers { alt: false, ctrl: true, shift: false }, logical_key: Key::Enter }),
            Command::ClearScriptOutput => None,
            Command::CreateClassicTween => None,
            Command::CreateMotionTween => None,
            Command::CreateShapeTween => None,
            Command::RemoveTween => None,
            Command::InsertFrame => Some(KeyboardShortcut { modifiers: Modifiers { alt: false, ctrl: false, shift: false }, logical_key: Key::F5 }),
            Command::RemoveFrame => Some(KeyboardShortcut { modifiers: Modifiers { alt: false, ctrl: false, shift: true }, logical_key: Key::F5 }),
            Command::InsertKeyframe => Some(KeyboardShortcut { modifiers: Modifiers { alt: false, ctrl: false, shift: false }, logical_key: Key::F6 }),
            Command::InsertBlankKeyframe => Some(KeyboardShortcut { modifiers: Modifiers { alt: false, ctrl: false, shift: false }, logical_key: Key::F7 }),
            Command::ClearKeyframe => Some(KeyboardShortcut { modifiers: Modifiers { alt: false, ctrl: false, shift: true }, logical_key: Key::F6 }),
            Command::PlayPause => Some(KeyboardShortcut { modifiers: Modifiers { alt: false, ctrl: false, shift: false }, logical_key: Key::Enter }),
            Command::NextFrame => Some(KeyboardShortcut { modifiers: Modifiers { alt: false, ctrl: false, shift: false }, logical_key: Key::Period }),
            Command::PreviousFrame => Some(KeyboardShortcut { modifiers: Modifiers { alt: false, ctrl: false, shift: false }, logical_key: Key::Comma }),
            Command::FirstFrame => Some(KeyboardShortcut { modifiers: Modifiers { alt: false, ctrl: false, shift: false }, logical_key: Key::Home }),
            Command::LastFrame => Some(KeyboardShortcut { modifiers: Modifiers { alt: false, ctrl: false, shift: false }, logical_key: Key::End }),
            Command::CutFrames => Some(KeyboardShortcut { modifiers: Modifiers { alt: true, ctrl: true, shift: false }, logical_key: Key::X }),
            Command::CopyFrames => Some(KeyboardShortcut { modifiers: Modifiers { alt: true, ctrl: true, shift: false }, logical_key: Key::C }),
            Command::PasteFrames => Some(KeyboardShortcut { modifiers: Modifiers { alt: true, ctrl: true, shift: false }, logical_key: Key::V }),
            Command::ClearFrames => Some(KeyboardShortcut { modifiers: Modifiers { alt: true, ctrl: false, shift: false }, logical_key: Key::Backspace }),
            Command::ReverseFrames => None,
            Command::ToggleOnionSkin => None,
            Command::ToggleAutoKeyframe => None,
            Command::ToggleEditMultipleFrames => None,
            Command::ToggleCamera => None,
            Command::AddCameraKeyframe => None,
            Command::RemoveCameraKeyframe => None,
            Command::AddLightKeyframe => None,
            Command::RemoveLightKeyframe => None,
            Command::ResetCamera => None,
            Command::AddCameraMove(_) => None,
            Command::SelectTool(_) => None,
            Command::Nudge { .. } => None,
            Command::SaveAsTemplate => None,
            Command::NewFromTemplate(_) => None,
            Command::Align { .. } => None,
            Command::Distribute(_) => None,
            Command::MatchSize(_) => None,
        }
    }

    /// Animate's default shortcut, if it has one.
    pub fn shortcut(self) -> (r: Option<KeyboardShortcut>)
        ensures
            r == self.shortcut_spec(),
    {
        match self {
            Command::New => Some(KeyboardShortcut { modifiers: Modifiers { alt: false, ctrl: true, shift: false }, logical_key: Key::N }),
            Command::Open => Some(KeyboardShortcut { modifiers: Modifiers { alt: false, ctrl: true, shift: false }, logical_key: Key::O }),
            Command::Save => Some(KeyboardShortcut { modifiers: Modifiers { alt: false, ctrl: true, shift: false }, logical_key: Key::S }),
            Command::SaveAs => Some(KeyboardShortcut { modifiers: Modifiers { alt: false, ctrl: true, shift: true }, logical_key: Key::S }),
            Command::Close => Some(KeyboardShortcut { modifiers: Modifiers { alt: false, ctrl: true, shift: false }, logical_key: Key::W }),
            Command::Quit => Some(KeyboardShortcut { modifiers: Modifiers { alt: false, ctrl: true, shift: false }, logical_key: Key::Q }),
            Command::ImportToLibrary => Some(KeyboardShortcut { modifiers: Modifiers { alt: false, ctrl: true, shift: true }, logical_key: Key::R }),
            Command::ImportToStage => Some(KeyboardShortcut { modifiers: Modifiers { alt: false, ctrl: true, shift: false }, logical_key: Key::R }),
            Command::ExportFla => None,
            Command::ExportImage => None,
            Command::ExportSequence => None,
            Command::ExportVideo => None,
            Command::ExportGif => None,
            Command::ExportWebp => None,
            Command::ImportSound => None,
            Command::ImportImage => None,
            Command::AttachSound => None,
            Command::RemoveSound => None,
            Command::LipSync => None,
            Command::NewMouthSymbol => None,
            Command::DetectBeats => None,
            Command::FitToNarration => None,
            Command::ImportCaptions => None,
            Command::ExportCaptions => None,
            Command::Undo => Some(KeyboardShortcut { modifiers: Modifiers { alt: false, ctrl: true, shift: false }, logical_key: Key::Z }),
            Command::Redo => Some(KeyboardShortcut { modifiers: Modifiers { alt: false, ctrl: true, shift: true }, logical_key: Key::Z }),
            Command::Cut => Some(KeyboardShortcut { modifiers: Modifiers { alt: false, ctrl: true, shift: false }, logical_key: Key::X }),
            Command::Copy => Some(KeyboardShortcut { modifiers: Modifiers { alt: false, ctrl: true, shift: false }, logical_key: Key::C }),
            Command::Paste => Some(KeyboardShortcut { modifiers: Modifiers { alt: false, ctrl: true, shift: false }, logical_key: Key::V }),
            Command::Delete => Some(KeyboardShortcut { modifiers: Modifiers { alt: false, ctrl: false, shift: false }, logical_key: Key::Delete }),
            Command::SelectAll => Some(KeyboardShortcut { modifiers: Modifiers { alt: false, ctrl: true, shift: false }, logical_key: Key::A }),
            Command::Deselect => Some(KeyboardShortcut { modifiers: Modifiers { alt: false, ctrl: true, shift: true }, logical_key: Key::A }),
            Command::DuplicateSelection => Some(KeyboardShortcut { modifiers: Modifiers { alt: false, ctrl: true, shift: false }, logical_key: Key::D }),
            Command::ZoomIn => Some(KeyboardShortcut { modifiers: Modifiers { alt: false, ctrl: true, shift: false }, logical_key: Key::Equals }),
            Command::ZoomOut => Some(KeyboardShortcut { modifiers: Modifiers { alt: false, ctrl: true, shift: false }, logical_key: Key::Minus }),
            Command::ZoomActual => Some(KeyboardShortcut { modifiers: Modifiers { alt: false, ctrl: true, shift: false }, logical_key: Key::Num1 }),
            Command::ZoomFitInWindow => Some(KeyboardShortcut { modifiers: Modifiers { alt: false, ctrl: true, shift: false }, logical_key: Key::Num3 }),
            Command::ZoomShowFrame => Some(KeyboardShortcut { modifiers: Modifiers { alt: false, ctrl: true, shift: false }, logical_key: Key::Num2 }),
            Command::ZoomShowAll => Some(KeyboardShortcut { modifiers: Modifiers { alt: false, ctrl: true, shift: true }, logical_key: Key::W }),
            Command::ToggleRulers => Some(KeyboardShortcut { modifiers: Modifiers { alt: true, ctrl: true, shift: true }, logical_key: Key::R }),
            Command::ToggleGrid => Some(KeyboardShortcut { modifiers: Modifiers { alt: false, ctrl: true, shift: false }, logical_key: Key::Quote }),
            Command::ToggleGuides => Some(KeyboardShortcut { modifiers: Modifiers { alt: false, ctrl: true, shift: false }, logical_key: Key::Semicolon }),
            Command::ToggleSnapping => Some(KeyboardShortcut { modifiers: Modifiers { alt: false, ctrl: true, shift: true }, logical_key: Key::U }),
            Command::TogglePasteboard => Some(KeyboardShortcut { modifiers: Modifiers { alt: false, ctrl: true, shift: true }, logical_key: Key::W }),
            Command::GroupSelection => Some(KeyboardShortcut { modifiers: Modifiers { alt: false, ctrl: true, shift: false }, logical_key: Key::G }),
            Command::UngroupSelection => Some(KeyboardShortcut { modifiers: Modifiers { alt: false, ctrl: true, shift: true }, logical_key: Key::G }),
            Command::BringToFront => Some(KeyboardShortcut { modifiers: Modifiers { alt: false, ctrl: true, shift: true }, logical_key: Key::ArrowUp }),
            Command::BringForward => Some(KeyboardShortcut { modifiers: Modifiers { alt: false, ctrl: true, shift: false }, logical_key: Key::ArrowUp }),
            Command::SendBackward => Some(KeyboardShortcut { modifiers: Modifiers { alt: false, ctrl: true, shift: false }, logical_key: Key::ArrowDown }),
            Command::SendToBack => Some(KeyboardShortcut { modifiers: Modifiers { alt: false, ctrl: true, shift: true }, logical_key: Key::ArrowDown }),
            Command::RetargetPerformance => None,
            Command::SwapSymbol => None,
            Command::PaintThrough => None,
            Command::ExposeOnTwos => None,
            Command::ExposeOnThrees => None,
            Command::SelectSameColour => None,
            Command::ThickenStroke => Some(KeyboardShortcut { modifiers: Modifiers { alt: false, ctrl: false, shift: false }, logical_key: Key::CloseBracket }),
            Command::ThinStroke => Some(KeyboardShortcut { modifiers: Modifiers { alt: false, ctrl: false, shift: false }, logical_key: Key::OpenBracket }),
            Command::TraceBitmap => None,
            Command::TraceLineArt => None,
            Command::ConvertLinesToFills => None,
            Command::ExpandFill => None,
            Command::SmoothSelection => None,
            Command::StraightenSelection => None,
            Command::RecogniseShape => None,
            Command::FlipHorizontal => None,
            Command::FlipVertical => None,
            Command::RotateClockwise => Some(KeyboardShortcut { modifiers: Modifiers { alt: false, ctrl: true, shift: true }, logical_key: Key::Num9 }),
            Command::RotateAnticlockwise => Some(KeyboardShortcut { modifiers: Modifiers { alt: false, ctrl: true, shift: true }, logical_key: Key::Num7 }),
            Command::NewLayer => Some(KeyboardShortcut { modifiers: Modifiers { alt: true, ctrl: true, shift: false }, logical_key: Key::N }),
            Command::NewLayerFolder => Some(KeyboardShortcut { modifiers: Modifiers { alt: true, ctrl: true, shift: false }, logical_key: Key::F }),
            Command::NewReferenceLayer => None,
            Command::ImportVideoReference => None,
            Command::ImportSequenceFolder => None,
            Command::DeleteLayer => None,
            Command::ConvertToSymbol => Some(KeyboardShortcut { modifiers: Modifiers { alt: false, ctrl: false, shift: false }, logical_key: Key::F8 }),
            Command::NewSymbol => Some(KeyboardShortcut { modifiers: Modifiers { alt: false, ctrl: true, shift: false }, logical_key: Key::F8 }),
            Command::EditSymbol => Some(KeyboardShortcut { modifiers: Modifiers { alt: false, ctrl: true, shift: false }, logical_key: Key::E }),
            Command::EditDocument => Some(KeyboardShortcut { modifiers: Modifiers { alt: false, ctrl: true, shift: false }, logical_key: Key::F4 }),
            Command::PlaceInstance => None,
            Command::DuplicateSymbol => None,
            Command::DeleteSymbol => None,
            Command::NewLibraryFolder => None,
            Command::BrushFromSelection => None,
            Command::TogglePanel(_) => None,
            Command::ToggleLayoutLock => Some(KeyboardShortcut { modifiers: Modifiers { alt: true, ctrl: true, shift: false }, logical_key: Key::L }),
            Command::ToggleTheme => None,
            Command::SetTheme(_) => None,
            Command::About => None,
            Command::ResetWorkspace => None,
            Command::SaveSnapshot => None,
            Command::Snapshots => None,
            Command::ShortcutEditor => None,
            Command::AddSun => None,
            Command::AddSky => None,
            Command::AddLamp => None,
            Command::AddGloom => None,
            Command::AddFire => None,
            Command::AddStorm => None,
            Command::ToggleLightGizmos => Some(KeyboardShortcut { modifiers: Modifiers { alt: false, ctrl: true, shift: true }, logical_key: Key::L }),
            Command::SetScene => None,
            Command::DirectScene => None,
            Command::AddScene => None,
            Command::DuplicateScene => None,
            Command::AddPerson => None,
            Command::Perform => None,
            Command::AddFollowThrough => None,
            Command::AddWiggle => None,
            Command::ClearModifiers => None,
            Command::BakeModifiers => None,
            Command::SetReverse => None,
            Command::ClearReverse => None,
            Command::AddProfileRight => None,
            Command::AddProfileLeft => None,
            Command::AddThreeQuarterRight => None,
            Command::AddThreeQuarterLeft => None,
            Command::ToggleActionsPanel => Some(KeyboardShortcut { modifiers: Modifiers { alt: false, ctrl: false, shift: false }, logical_key: Key::F9 }),
            Command::RunScript => Some(KeyboardShortcut { modifiers: Modifiers { alt: false, ctrl: true, shift: false }, logical_key: Key::Enter }),
            Command::ClearScriptOutput => None,
            Command::CreateClassicTween => None,
            Command::CreateMotionTween => None,
            Command::CreateShapeTween => None,
            Command::RemoveTween => None,
            Command::InsertFrame => Some(KeyboardShortcut { modifiers: Modifiers { alt: false, ctrl: false, shift: false }, logical_key: Key::F5 }),
            Command::RemoveFrame => Some(KeyboardShortcut { modifiers: Modifiers { alt: false, ctrl: false, shift: true }, logical_key: Key::F5 }),
            Command::InsertKeyframe => Some(KeyboardShortcut { modifiers: Modifiers { alt: false, ctrl: false, shift: false }, logical_key: Key::F6 }),
            Command::InsertBlankKeyframe => Some(KeyboardShortcut { modifiers: Modifiers { alt: false, ctrl: false, shift: false }, logical_key: Key::F7 }),
            Command::ClearKeyframe => Some(KeyboardShortcut { modifiers: Modifiers { alt: false, ctrl: false, shift: true }, logical_key: Key::F6 }),
            Command::PlayPause => Some(KeyboardShortcut { modifiers: Modifiers { alt: false, ctrl: false, shift: false }, logical_key: Key::Enter }),
            Command::NextFrame => Some(KeyboardShortcut { modifiers: Modifiers { alt: false, ctrl: false, shift: false }, logical_key: Key::Period }),
            Command::PreviousFrame => Some(KeyboardShortcut { modifiers: Modifiers { alt: false, ctrl: false, shift: false }, logical_key: Key::Comma }),
            Command::FirstFrame => Some(KeyboardShortcut { modifiers: Modifiers { alt: false, ctrl: false, shift: false }, logical_key: Key::Home }),
            Command::LastFrame => Some(KeyboardShortcut { modifiers: Modifiers { alt: false, ctrl: false, shift: false }, logical_key: Key::End }),
            Command::CutFrames => Some(KeyboardShortcut { modifiers: Modifiers { alt: true, ctrl: true, shift: false }, logical_key: Key::X }),
            Command::CopyFrames => Some(KeyboardShortcut { modifiers: Modifiers { alt: true, ctrl: true, shift: false }, logical_key: Key::C }),
            Command::PasteFrames => Some(KeyboardShortcut { modifiers: Modifiers { alt: true, ctrl: true, shift: false }, logical_key: Key::V }),
            Command::ClearFrames => Some(KeyboardShortcut { modifiers: Modifiers { alt: true, ctrl: false, shift: false }, logical_key: Key::Backspace }),
            Command::ReverseFrames => None,
            Command::ToggleOnionSkin => None,
            Command::ToggleAutoKeyframe => None,
            Command::ToggleEditMultipleFrames => None,
            Command::ToggleCamera => None,
            Command::AddCameraKeyframe => None,
            Command::RemoveCameraKeyframe => None,
            Command::AddLightKeyframe => None,
            Command::RemoveLightKeyframe => None,
            Command::ResetCamera => None,
            Command::AddCameraMove(_) => None,
            Command::SelectTool(_) => None,
            Command::Nudge { .. } => None,
            Command::SaveAsTemplate => None,
            Command::NewFromTemplate(_) => None,
            Command::Align { .. } => None,
            Command::Distribute(_) => None,
            Command::MatchSize(_) => None,
        }
    }

    /// Does this command need something selected?
    pub open spec fn needs_selection_spec(self) -> bool {
        match self {
            Command::Cut | Command::Copy | Command::Delete | Command::DuplicateSelection | Command::GroupSelection | Command::UngroupSelection | Command::BringToFront | Command::BringForward | Command::SendBackward | Command::SendToBack | Command::ConvertLinesToFills | Command::ExpandFill | Command::SmoothSelection | Command::RecogniseShape | Command::StraightenSelection | Command::ConvertToSymbol | Command::BrushFromSelection | Command::ClearModifiers | Command::BakeModifiers | Command::SetReverse | Command::ClearReverse | Command::Align { .. } | Command::Distribute(_) | Command::MatchSize(_) | Command::Nudge { .. } => true,
            _ => false,
        }
    }

    /// Does this command need something selected? Used to grey out menu
    /// items, which is how a user learns what a tool expects.
    pub fn needs_selection(self) -> (r: bool)
        ensures
            r == self.needs_selection_spec(),
    {
        match self {
            Command::Cut | Command::Copy | Command::Delete | Command::DuplicateSelection | Command::GroupSelection | Command::UngroupSelection | Command::BringToFront | Command::BringForward | Command::SendBackward | Command::SendToBack | Command::ConvertLinesToFills | Command::ExpandFill | Command::SmoothSelection | Command::RecogniseShape | Command::StraightenSelection | Command::ConvertToSymbol | Command::BrushFromSelection | Command::ClearModifiers | Command::BakeModifiers | Command::SetReverse | Command::ClearReverse | Command::Align { .. } | Command::Distribute(_) | Command::MatchSize(_) | Command::Nudge { .. } => true,
            _ => false,
        }
    }
}

/// The command at position `i` of the palette, in menu order.
pub open spec fn palette_at(i: int) -> Command {
    if i == 0 {
        Command::New
    }     else if i == 1 {
        Command::Open
    }     else if i == 2 {
        Command::Save
    }     else if i == 3 {
        Command::SaveAs
    }     else if i == 4 {
        Command::Close
    }     else if i == 5 {
        Command::Quit
    }     else if i == 6 {
        Command::Undo
    }     else if i == 7 {
        Command::Redo
    }     else if i == 8 {
        Command::Cut
    }     else if i == 9 {
        Command::Copy
    }     else if i == 10 {
        Command::Paste
    }     else if i == 11 {
        Command::Delete
    }     else if i == 12 {
        Command::SelectAll
    }     else if i == 13 {
        Command::Deselect
    }     else if i == 14 {
        Command::DuplicateSelection
    }     else if i == 15 {
        Command::ZoomIn
    }     else if i == 16 {
        Command::ZoomOut
    }     else if i == 17 {
        Command::ZoomActual
    }     else if i == 18 {
        Command::ZoomFitInWindow
    }     else if i == 19 {
        Command::ZoomShowFrame
    }     else if i == 20 {
        Command::ZoomShowAll
    }     else if i == 21 {
        Command::ToggleRulers
    }     else if i == 22 {
        Command::ToggleGrid
    }     else if i == 23 {
        Command::ToggleGuides
    }     else if i == 24 {
        Command::ToggleSnapping
    }     else if i == 25 {
        Command::TogglePasteboard
    }     else if i == 26 {
        Command::GroupSelection
    }     else if i == 27 {
        Command::UngroupSelection
    }     else if i == 28 {
        Command::BringToFront
    }     else if i == 29 {
        Command::BringForward
    }     else if i == 30 {
        Command::SendBackward
    }     else if i == 31 {
        Command::SendToBack
    }     else if i == 32 {
        Command::ThickenStroke
    }     else if i == 33 {
        Command::ThinStroke
    }     else if i == 34 {
        Command::TraceBitmap
    }     else if i == 35 {
        Command::TraceLineArt
    }     else if i == 36 {
        Command::ConvertLinesToFills
    }     else if i == 37 {
        Command::ExpandFill
    }     else if i == 38 {
        Command::SmoothSelection
    }     else if i == 39 {
        Command::StraightenSelection
    }     else if i == 40 {
        Command::RecogniseShape
    }     else if i == 41 {
        Command::FlipHorizontal
    }     else if i == 42 {
        Command::FlipVertical
    }     else if i == 43 {
        Command::RotateClockwise
    }     else if i == 44 {
        Command::RotateAnticlockwise
    }     else if i == 45 {
        Command::NewLayer
    }     else if i == 46 {
        Command::NewLayerFolder
    }     else if i == 47 {
        Command::NewReferenceLayer
    }     else if i == 48 {
        Command::DeleteLayer
    }     else if i == 49 {
        Command::InsertFrame
    }     else if i == 50 {
        Command::RemoveFrame
    }     else if i == 51 {
        Command::InsertKeyframe
    }     else if i == 52 {
        Command::InsertBlankKeyframe
    }     else if i == 53 {
        Command::ClearKeyframe
    }     else if i == 54 {
        Command::PlayPause
    }     else if i == 55 {
        Command::NextFrame
    }     else if i == 56 {
        Command::PreviousFrame
    }     else if i == 57 {
        Command::FirstFrame
    }     else if i == 58 {
        Command::LastFrame
    }     else if i == 59 {
        Command::CutFrames
    }     else if i == 60 {
        Command::CopyFrames
    }     else if i == 61 {
        Command::PasteFrames
    }     else if i == 62 {
        Command::ClearFrames
    }     else if i == 63 {
        Command::ReverseFrames
    }     else if i == 64 {
        Command::ToggleOnionSkin
    }     else if i == 65 {
        Command::ToggleAutoKeyframe
    }     else if i == 66 {
        Command::ToggleEditMultipleFrames
    }     else if i == 67 {
        Command::ToggleCamera
    }     else if i == 68 {
        Command::AddCameraKeyframe
    }     else if i == 69 {
        Command::RemoveCameraKeyframe
    }     else if i == 70 {
        Command::AddLightKeyframe
    }     else if i == 71 {
        Command::RemoveLightKeyframe
    }     else if i == 72 {
        Command::ResetCamera
    }     else if i == 73 {
        Command::ImportToLibrary
    }     else if i == 74 {
        Command::ImportToStage
    }     else if i == 75 {
        Command::ConvertToSymbol
    }     else if i == 76 {
        Command::NewSymbol
    }     else if i == 77 {
        Command::EditSymbol
    }     else if i == 78 {
        Command::EditDocument
    }     else if i == 79 {
        Command::PlaceInstance
    }     else if i == 80 {
        Command::DuplicateSymbol
    }     else if i == 81 {
        Command::DeleteSymbol
    }     else if i == 82 {
        Command::NewLibraryFolder
    }     else if i == 83 {
        Command::CreateClassicTween
    }     else if i == 84 {
        Command::CreateMotionTween
    }     else if i == 85 {
        Command::CreateShapeTween
    }     else if i == 86 {
        Command::RemoveTween
    }     else if i == 87 {
        Command::BrushFromSelection
    }     else if i == 88 {
        Command::AddSun
    }     else if i == 89 {
        Command::AddSky
    }     else if i == 90 {
        Command::AddLamp
    }     else if i == 91 {
        Command::AddGloom
    }     else if i == 92 {
        Command::AddFire
    }     else if i == 93 {
        Command::AddStorm
    }     else if i == 94 {
        Command::ToggleLightGizmos
    }     else if i == 95 {
        Command::SetScene
    }     else if i == 96 {
        Command::DirectScene
    }     else if i == 97 {
        Command::AddScene
    }     else if i == 98 {
        Command::DuplicateScene
    }     else if i == 99 {
        Command::AddPerson
    }     else if i == 100 {
        Command::Perform
    }     else if i == 101 {
        Command::AddFollowThrough
    }     else if i == 102 {
        Command::AddWiggle
    }     else if i == 103 {
        Command::ClearModifiers
    }     else if i == 104 {
        Command::BakeModifiers
    }     else if i == 105 {
        Command::SetReverse
    }     else if i == 106 {
        Command::ClearReverse
    }     else if i == 107 {
        Command::ToggleLayoutLock
    }     else if i == 108 {
        Command::ToggleTheme
    }     else if i == 109 {
        Command::About
    }     else if i == 110 {
        Command::SaveSnapshot
    }     else if i == 111 {
        Command::Snapshots
    }     else if i == 112 {
        Command::ShortcutEditor
    }     else if i == 113 {
        Command::ToggleActionsPanel
    }     else if i == 114 {
        Command::RunScript
    }     else if i == 115 {
        Command::ClearScriptOutput
    }     else if i == 116 {
        Command::ExportFla
    }     else if i == 117 {
        Command::ExportImage
    }     else if i == 118 {
        Command::ExportSequence
    }     else if i == 119 {
        Command::ExportVideo
    }     else if i == 120 {
        Command::ExportGif
    }     else if i == 121 {
        Command::ExportWebp
    }     else if i == 122 {
        Command::ImportSound
    }     else if i == 123 {
        Command::ImportImage
    }     else if i == 124 {
        Command::AttachSound
    }     else if i == 125 {
        Command::RemoveSound
    }     else if i == 126 {
        Command::LipSync
    }     else if i == 127 {
        Command::NewMouthSymbol
    }     else if i == 128 {
        Command::DetectBeats
    }     else if i == 129 {
        Command::FitToNarration
    }     else if i == 130 {
        Command::ImportCaptions
    }     else if i == 131 {
        Command::ExportCaptions
    } else {
        Command::ExportCaptions
    }
}

/// Every command worth offering by name, in menu order.
pub open spec fn palette_spec() -> Seq<Command> {
    Seq::new(PALETTE_LEN as nat, |i: int| palette_at(i))
}

fn palette_entry(i: usize) -> (c: Command)
    requires
        i < PALETTE_LEN,
    ensures
        c == palette_at(i as int),
{
    match i {
        0 => Command::New,
        1 => Command::Open,
        2 => Command::Save,
        3 => Command::SaveAs,
        4 => Command::Close,
        5 => Command::Quit,
        6 => Command::Undo,
        7 => Command::Redo,
        8 => Command::Cut,
        9 => Command::Copy,
        10 => Command::Paste,
        11 => Command::Delete,
        12 => Command::SelectAll,
        13 => Command::Deselect,
        14 => Command::DuplicateSelection,
        15 => Command::ZoomIn,
        16 => Command::ZoomOut,
        17 => Command::ZoomActual,
        18 => Command::ZoomFitInWindow,
        19 => Command::ZoomShowFrame,
        20 => Command::ZoomShowAll,
        21 => Command::ToggleRulers,
        22 => Command::ToggleGrid,
        23 => Command::ToggleGuides,
        24 => Command::ToggleSnapping,
        25 => Command::TogglePasteboard,
        26 => Command::GroupSelection,
        27 => Command::UngroupSelection,
        28 => Command::BringToFront,
        29 => Command::BringForward,
        30 => Command::SendBackward,
        31 => Command::SendToBack,
        32 => Command::ThickenStroke,
        33 => Command::ThinStroke,
        34 => Command::TraceBitmap,
        35 => Command::TraceLineArt,
        36 => Command::ConvertLinesToFills,
        37 => Command::ExpandFill,
        38 => Command::SmoothSelection,
        39 => Command::StraightenSelection,
        40 => Command::RecogniseShape,
        41 => Command::FlipHorizontal,
        42 => Command::FlipVertical,
        43 => Command::RotateClockwise,
        44 => Command::RotateAnticlockwise,
        45 => Command::NewLayer,
        46 => Command::NewLayerFolder,
        47 => Command::NewReferenceLayer,
        48 => Command::DeleteLayer,
        49 => Command::InsertFrame,
        50 => Command::RemoveFrame,
        51 => Command::InsertKeyframe,
        52 => Command::InsertBlankKeyframe,
        53 => Command::ClearKeyframe,
        54 => Command::PlayPause,
        55 => Command::NextFrame,
        56 => Command::PreviousFrame,
        57 => Command::FirstFrame,
        58 => Command::LastFrame,
        59 => Command::CutFrames,
        60 => Command::CopyFrames,
        61 => Command::PasteFrames,
        62 => Command::ClearFrames,
        63 => Command::ReverseFrames,
        64 => Command::ToggleOnionSkin,
        65 => Command::ToggleAutoKeyframe,
        66 => Command::ToggleEditMultipleFrames,
        67 => Command::ToggleCamera,
        68 => Command::AddCameraKeyframe,
        69 => Command::RemoveCameraKeyframe,
        70 => Command::AddLightKeyframe,
        71 => Command::RemoveLightKeyframe,
        72 => Command::ResetCamera,
        73 => Command::ImportToLibrary,
        74 => Command::ImportToStage,
        75 => Command::ConvertToSymbol,
        76 => Command::NewSymbol,
        77 => Command::EditSymbol,
        78 => Command::EditDocument,
        79 => Command::PlaceInstance,
        80 => Command::DuplicateSymbol,
        81 => Command::DeleteSymbol,
        82 => Command::NewLibraryFolder,
        83 => Command::CreateClassicTween,
        84 => Command::CreateMotionTween,
        85 => Command::CreateShapeTween,
        86 => Command::RemoveTween,
        87 => Command::BrushFromSelection,
        88 => Command::AddSun,
        89 => Command::AddSky,
        90 => Command::AddLamp,
        91 => Command::AddGloom,
        92 => Command::AddFire,
        93 => Command::AddStorm,
        94 => Command::ToggleLightGizmos,
        95 => Command::SetScene,
        96 => Command::DirectScene,
        97 => Command::AddScene,
        98 => Command::DuplicateScene,
        99 => Command::AddPerson,
        100 => Command::Perform,
        101 => Command::AddFollowThrough,
        102 => Command::AddWiggle,
        103 => Command::ClearModifiers,
        104 => Command::BakeModifiers,
        105 => Command::SetReverse,
        106 => Command::ClearReverse,
        107 => Command::ToggleLayoutLock,
        108 => Command::ToggleTheme,
        109 => Command::About,
        110 => Command::SaveSnapshot,
        111 => Command::Snapshots,
        112 => Command::ShortcutEditor,
        113 => Command::ToggleActionsPanel,
        114 => Command::RunScript,
        115 => Command::ClearScriptOutput,
        116 => Command::ExportFla,
        117 => Command::ExportImage,
        118 => Command::ExportSequence,
        119 => Command::ExportVideo,
        120 => Command::ExportGif,
        121 => Command::ExportWebp,
        122 => Command::ImportSound,
        123 => Command::ImportImage,
        124 => Command::AttachSound,
        125 => Command::RemoveSound,
        126 => Command::LipSync,
        127 => Command::NewMouthSymbol,
        128 => Command::DetectBeats,
        129 => Command::FitToNarration,
        130 => Command::ImportCaptions,
        _ => Command::ExportCaptions,
    }
}

/// Where a command stands in the palette (or the palette's length when it is
/// not offered there).
pub open spec fn palette_index(c: Command) -> int {
    match c {
        Command::New => 0,
        Command::Open => 1,
        Command::Save => 2,
        Command::SaveAs => 3,
        Command::Close => 4,
        Command::Quit => 5,
        Command::Undo => 6,
        Command::Redo => 7,
        Command::Cut => 8,
        Command::Copy => 9,
        Command::Paste => 10,
        Command::Delete => 11,
        Command::SelectAll => 12,
        Command::Deselect => 13,
        Command::DuplicateSelection => 14,
        Command::ZoomIn => 15,
        Command::ZoomOut => 16,
        Command::ZoomActual => 17,
        Command::ZoomFitInWindow => 18,
        Command::ZoomShowFrame => 19,
        Command::ZoomShowAll => 20,
        Command::ToggleRulers => 21,
        Command::ToggleGrid => 22,
        Command::ToggleGuides => 23,
        Command::ToggleSnapping => 24,
        Command::TogglePasteboard => 25,
        Command::GroupSelection => 26,
        Command::UngroupSelection => 27,
        Command::BringToFront => 28,
        Command::BringForward => 29,
        Command::SendBackward => 30,
        Command::SendToBack => 31,
        Command::ThickenStroke => 32,
        Command::ThinStroke => 33,
        Command::TraceBitmap => 34,
        Command::TraceLineArt => 35,
        Command::ConvertLinesToFills => 36,
        Command::ExpandFill => 37,
        Command::SmoothSelection => 38,
        Command::StraightenSelection => 39,
        Command::RecogniseShape => 40,
        Command::FlipHorizontal => 41,
        Command::FlipVertical => 42,
        Command::RotateClockwise => 43,
        Command::RotateAnticlockwise => 44,
        Command::NewLayer => 45,
        Command::NewLayerFolder => 46,
        Command::NewReferenceLayer => 47,
        Command::DeleteLayer => 48,
        Command::InsertFrame => 49,
        Command::RemoveFrame => 50,
        Command::InsertKeyframe => 51,
        Command::InsertBlankKeyframe => 52,
        Command::ClearKeyframe => 53,
        Command::PlayPause => 54,
        Command::NextFrame => 55,
        Command::PreviousFrame => 56,
        Command::FirstFrame => 57,
        Command::LastFrame => 58,
        Command::CutFrames => 59,
        Command::CopyFrames => 60,
        Command::PasteFrames => 61,
        Command::ClearFrames => 62,
        Command::ReverseFrames => 63,
        Command::ToggleOnionSkin => 64,
        Command::ToggleAutoKeyframe => 65,
        Command::ToggleEditMultipleFrames => 66,
        Command::ToggleCamera => 67,
        Command::AddCameraKeyframe => 68,
        Command::RemoveCameraKeyframe => 69,
        Command::AddLightKeyframe => 70,
        Command::RemoveLightKeyframe => 71,
        Command::ResetCamera => 72,
        Command::ImportToLibrary => 73,
        Command::ImportToStage => 74,
        Command::ConvertToSymbol => 75,
        Command::NewSymbol => 76,
        Command::EditSymbol => 77,
        Command::EditDocument => 78,
        Command::PlaceInstance => 79,
        Command::DuplicateSymbol => 80,
        Command::DeleteSymbol => 81,
        Command::NewLibraryFolder => 82,
        Command::CreateClassicTween => 83,
        Command::CreateMotionTween => 84,
        Command::CreateShapeTween => 85,
        Command::RemoveTween => 86,
        Command::BrushFromSelection => 87,
        Command::AddSun => 88,
        Command::AddSky => 89,
        Command::AddLamp => 90,
        Command::AddGloom => 91,
        Command::AddFire => 92,
        Command::AddStorm => 93,
        Command::ToggleLightGizmos => 94,
        Command::SetScene => 95,
        Command::DirectScene => 96,
        Command::AddScene => 97,
        Command::DuplicateScene => 98,
        Command::AddPerson => 99,
        Command::Perform => 100,
        Command::AddFollowThrough => 101,
        Command::AddWiggle => 102,
        Command::ClearModifiers => 103,
        Command::BakeModifiers => 104,
        Command::SetReverse => 105,
        Command::ClearReverse => 106,
        Command::ToggleLayoutLock => 107,
        Command::ToggleTheme => 108,
        Command::About => 109,
        Command::SaveSnapshot => 110,
        Command::Snapshots => 111,
        Command::ShortcutEditor => 112,
        Command::ToggleActionsPanel => 113,
        Command::RunScript => 114,
        Command::ClearScriptOutput => 115,
        Command::ExportFla => 116,
        Command::ExportImage => 117,
        Command::ExportSequence => 118,
        Command::ExportVideo => 119,
        Command::ExportGif => 120,
        Command::ExportWebp => 121,
        Command::ImportSound => 122,
        Command::ImportImage => 123,
        Command::AttachSound => 124,
        Command::RemoveSound => 125,
        Command::LipSync => 126,
        Command::NewMouthSymbol => 127,
        Command::DetectBeats => 128,
        Command::FitToNarration => 129,
        Command::ImportCaptions => 130,
        Command::ExportCaptions => 131,
        _ => PALETTE_LEN as int,
    }
}

/// The command that owns a shortcut in the default map. Two commands share
/// Ctrl+Shift+W, as they do in Animate; this names the first of them.
pub open spec fn command_for(s: KeyboardShortcut) -> Option<Command> {
    if s == (KeyboardShortcut { modifiers: Modifiers { alt: false, ctrl: true, shift: false }, logical_key: Key::N }) {
        Some(Command::New)
    }     else if s == (KeyboardShortcut { modifiers: Modifiers { alt: false, ctrl: true, shift: false }, logical_key: Key::O }) {
        Some(Command::Open)
    }     else if s == (KeyboardShortcut { modifiers: Modifiers { alt: false, ctrl: true, shift: false }, logical_key: Key::S }) {
        Some(Command::Save)
    }     else if s == (KeyboardShortcut { modifiers: Modifiers { alt: false, ctrl: true, shift: true }, logical_key: Key::S }) {
        Some(Command::SaveAs)
    }     else if s == (KeyboardShortcut { modifiers: Modifiers { alt: false, ctrl: true, shift: false }, logical_key: Key::W }) {
        Some(Command::Close)
    }     else if s == (KeyboardShortcut { modifiers: Modifiers { alt: false, ctrl: true, shift: false }, logical_key: Key::Q }) {
        Some(Command::Quit)
    }     else if s == (KeyboardShortcut { modifiers: Modifiers { alt: false, ctrl: true, shift: true }, logical_key: Key::R }) {
        Some(Command::ImportToLibrary)
    }     else if s == (KeyboardShortcut { modifiers: Modifiers { alt: false, ctrl: true, shift: false }, logical_key: Key::R }) {
        Some(Command::ImportToStage)
    }     else if s == (KeyboardShortcut { modifiers: Modifiers { alt: false, ctrl: true, shift: false }, logical_key: Key::Z }) {
        Some(Command::Undo)
    }     else if s == (KeyboardShortcut { modifiers: Modifiers { alt: false, ctrl: true, shift: true }, logical_key: Key::Z }) {
        Some(Command::Redo)
    }     else if s == (KeyboardShortcut { modifiers: Modifiers { alt: false, ctrl: true, shift: false }, logical_key: Key::X }) {
        Some(Command::Cut)
    }     else if s == (KeyboardShortcut { modifiers: Modifiers { alt: false, ctrl: true, shift: false }, logical_key: Key::C }) {
        Some(Command::Copy)
    }     else if s == (KeyboardShortcut { modifiers: Modifiers { alt: false, ctrl: true, shift: false }, logical_key: Key::V }) {
        Some(Command::Paste)
    }     else if s == (KeyboardShortcut { modifiers: Modifiers { alt: false, ctrl: false, shift: false }, logical_key: Key::Delete }) {
        Some(Command::Delete)
    }     else if s == (KeyboardShortcut { modifiers: Modifiers { alt: false, ctrl: true, shift: false }, logical_key: Key::A }) {
        Some(Command::SelectAll)
    }     else if s == (KeyboardShortcut { modifiers: Modifiers { alt: false, ctrl: true, shift: true }, logical_key: Key::A }) {
        Some(Command::Deselect)
    }     else if s == (KeyboardShortcut { modifiers: Modifiers { alt: false, ctrl: true, shift: false }, logical_key: Key::D }) {
        Some(Command::DuplicateSelection)
    }     else if s == (KeyboardShortcut { modifiers: Modifiers { alt: false, ctrl: true, shift: false }, logical_key: Key::Equals }) {
        Some(Command::ZoomIn)
    }     else if s == (KeyboardShortcut { modifiers: Modifiers { alt: false, ctrl: true, shift: false }, logical_key: Key::Minus }) {
        Some(Command::ZoomOut)
    }     else if s == (KeyboardShortcut { modifiers: Modifiers { alt: false, ctrl: true, shift: false }, logical_key: Key::Num1 }) {
        Some(Command::ZoomActual)
    }     else if s == (KeyboardShortcut { modifiers: Modifiers { alt: false, ctrl: true, shift: false }, logical_key: Key::Num3 }) {
        Some(Command::ZoomFitInWindow)
    }     else if s == (KeyboardShortcut { modifiers: Modifiers { alt: false, ctrl: true, shift: false }, logical_key: Key::Num2 }) {
        Some(Command::ZoomShowFrame)
    }     else if s == (KeyboardShortcut { modifiers: Modifiers { alt: false, ctrl: true, shift: true }, logical_key: Key::W }) {
        Some(Command::ZoomShowAll)
    }     else if s == (KeyboardShortcut { modifiers: Modifiers { alt: true, ctrl: true, shift: true }, logical_key: Key::R }) {
        Some(Command::ToggleRulers)
    }     else if s == (KeyboardShortcut { modifiers: Modifiers { alt: false, ctrl: true, shift: false }, logical_key: Key::Quote }) {
        Some(Command::ToggleGrid)
    }     else if s == (KeyboardShortcut { modifiers: Modifiers { alt: false, ctrl: true, shift: false }, logical_key: Key::Semicolon }) {
        Some(Command::ToggleGuides)
    }     else if s == (KeyboardShortcut { modifiers: Modifiers { alt: false, ctrl: true, shift: true }, logical_key: Key::U }) {
        Some(Command::ToggleSnapping)
    }     else if s == (KeyboardShortcut { modifiers: Modifiers { alt: false, ctrl: true, shift: false }, logical_key: Key::G }) {
        Some(Command::GroupSelection)
    }     else if s == (KeyboardShortcut { modifiers: Modifiers { alt: false, ctrl: true, shift: true }, logical_key: Key::G }) {
        Some(Command::UngroupSelection)
    }     else if s == (KeyboardShortcut { modifiers: Modifiers { alt: false, ctrl: true, shift: true }, logical_key: Key::ArrowUp }) {
        Some(Command::BringToFront)
    }     else if s == (KeyboardShortcut { modifiers: Modifiers { alt: false, ctrl: true, shift: false }, logical_key: Key::ArrowUp }) {
        Some(Command::BringForward)
    }     else if s == (KeyboardShortcut { modifiers: Modifiers { alt: false, ctrl: true, shift: false }, logical_key: Key::ArrowDown }) {
        Some(Command::SendBackward)
    }     else if s == (KeyboardShortcut { modifiers: Modifiers { alt: false, ctrl: true, shift: true }, logical_key: Key::ArrowDown }) {
        Some(Command::SendToBack)
    }     else if s == (KeyboardShortcut { modifiers: Modifiers { alt: false, ctrl: false, shift: false }, logical_key: Key::CloseBracket }) {
        Some(Command::ThickenStroke)
    }     else if s == (KeyboardShortcut { modifiers: Modifiers { alt: false, ctrl: false, shift: false }, logical_key: Key::OpenBracket }) {
        Some(Command::ThinStroke)
    }     else if s == (KeyboardShortcut { modifiers: Modifiers { alt: false, ctrl: true, shift: true }, logical_key: Key::Num9 }) {
        Some(Command::RotateClockwise)
    }     else if s == (KeyboardShortcut { modifiers: Modifiers { alt: false, ctrl: true, shift: true }, logical_key: Key::Num7 }) {
        Some(Command::RotateAnticlockwise)
    }     else if s == (KeyboardShortcut { modifiers: Modifiers { alt: true, ctrl: true, shift: false }, logical_key: Key::N }) {
        Some(Command::NewLayer)
    }     else if s == (KeyboardShortcut { modifiers: Modifiers { alt: true, ctrl: true, shift: false }, logical_key: Key::F }) {
        Some(Command::NewLayerFolder)
    }     else if s == (KeyboardShortcut { modifiers: Modifiers { alt: false, ctrl: false, shift: false }, logical_key: Key::F8 }) {
        Some(Command::ConvertToSymbol)
    }     else if s == (KeyboardShortcut { modifiers: Modifiers { alt: false, ctrl: true, shift: false }, logical_key: Key::F8 }) {
        Some(Command::NewSymbol)
    }     else if s == (KeyboardShortcut { modifiers: Modifiers { alt: false, ctrl: true, shift: false }, logical_key: Key::E }) {
        Some(Command::EditSymbol)
    }     else if s == (KeyboardShortcut { modifiers: Modifiers { alt: false, ctrl: true, shift: false }, logical_key: Key::F4 }) {
        Some(Command::EditDocument)
    }     else if s == (KeyboardShortcut { modifiers: Modifiers { alt: true, ctrl: true, shift: false }, logical_key: Key::L }) {
        Some(Command::ToggleLayoutLock)
    }     else if s == (KeyboardShortcut { modifiers: Modifiers { alt: false, ctrl: true, shift: true }, logical_key: Key::L }) {
        Some(Command::ToggleLightGizmos)
    }     else if s == (KeyboardShortcut { modifiers: Modifiers { alt: false, ctrl: false, shift: false }, logical_key: Key::F9 }) {
        Some(Command::ToggleActionsPanel)
    }     else if s == (KeyboardShortcut { modifiers: Modifiers { alt: false, ctrl: true, shift: false }, logical_key: Key::Enter }) {
        Some(Command::RunScript)
    }     else if s == (KeyboardShortcut { modifiers: Modifiers { alt: false, ctrl: false, shift: false }, logical_key: Key::F5 }) {
        Some(Command::InsertFrame)
    }     else if s == (KeyboardShortcut { modifiers: Modifiers { alt: false, ctrl: false, shift: true }, logical_key: Key::F5 }) {
        Some(Command::RemoveFrame)
    }     else if s == (KeyboardShortcut { modifiers: Modifiers { alt: false, ctrl: false, shift: false }, logical_key: Key::F6 }) {
        Some(Command::InsertKeyframe)
    }     else if s == (KeyboardShortcut { modifiers: Modifiers { alt: false, ctrl: false, shift: false }, logical_key: Key::F7 }) {
        Some(Command::InsertBlankKeyframe)
    }     else if s == (KeyboardShortcut { modifiers: Modifiers { alt: false, ctrl: false, shift: true }, logical_key: Key::F6 }) {
        Some(Command::ClearKeyframe)
    }     else if s == (KeyboardShortcut { modifiers: Modifiers { alt: false, ctrl: false, shift: false }, logical_key: Key::Enter }) {
        Some(Command::PlayPause)
    }     else if s == (KeyboardShortcut { modifiers: Modifiers { alt: false, ctrl: false, shift: false }, logical_key: Key::Period }) {
        Some(Command::NextFrame)
    }     else if s == (KeyboardShortcut { modifiers: Modifiers { alt: false, ctrl: false, shift: false }, logical_key: Key::Comma }) {
        Some(Command::PreviousFrame)
    }     else if s == (KeyboardShortcut { modifiers: Modifiers { alt: false, ctrl: false, shift: false }, logical_key: Key::Home }) {
        Some(Command::FirstFrame)
    }     else if s == (KeyboardShortcut { modifiers: Modifiers { alt: false, ctrl: false, shift: false }, logical_key: Key::End }) {
        Some(Command::LastFrame)
    }     else if s == (KeyboardShortcut { modifiers: Modifiers { alt: true, ctrl: true, shift: false }, logical_key: Key::X }) {
        Some(Command::CutFrames)
    }     else if s == (KeyboardShortcut { modifiers: Modifiers { alt: true, ctrl: true, shift: false }, logical_key: Key::C }) {
        Some(Command::CopyFrames)
    }     else if s == (KeyboardShortcut { modifiers: Modifiers { alt: true, ctrl: true, shift: false }, logical_key: Key::V }) {
        Some(Command::PasteFrames)
    }     else if s == (KeyboardShortcut { modifiers: Modifiers { alt: true, ctrl: false, shift: false }, logical_key: Key::Backspace }) {
        Some(Command::ClearFrames)
    } else {
        None
    }
}

/// Every command worth offering by name — the whole menu catalogue, in menu
/// order — for the command palette. The data-carrying commands (a specific
/// tool, panel or template) are reached other ways and left out.
pub fn palette_commands() -> (r: Vec<Command>)
    ensures
        r@ == palette_spec(),
{
    let mut r: Vec<Command> = Vec::new();
    let mut i: usize = 0;
    while i < PALETTE_LEN
        invariant
            i <= PALETTE_LEN,
            r@ =~= palette_spec().take(i as int),
        decreases PALETTE_LEN - i,
    {
        r.push(palette_entry(i));
        i = i + 1;
    }
    assert(palette_spec().take(PALETTE_LEN as int) =~= palette_spec());
    r
}

/// Does this command carry a shortcut?
pub open spec fn has_shortcut(c: Command) -> bool {
    c.shortcut_spec() is Some
}

/// [`has_shortcut`], as a predicate to filter by.
pub open spec fn carries_shortcut() -> spec_fn(Command) -> bool {
    |c: Command| has_shortcut(c)
}

/// Every command that carries a keyboard shortcut, in palette order.
///
/// Exposed so the application can check that each one is actually bound: a
/// shortcut in this map is a promise, and the code that reads the keyboard is
/// a separate list that has to keep it.
pub fn all_with_shortcuts() -> (r: Vec<Command>)
    ensures
        r@ == palette_spec().filter(carries_shortcut()),
{
    let palette = palette_commands();
    let ghost pred = carries_shortcut();
    let mut r: Vec<Command> = Vec::new();
    let mut i: usize = 0;
    while i < palette.len()
        invariant
            i <= palette@.len(),
            palette@ == palette_spec(),
            pred == carries_shortcut(),
            r@ == palette@.take(i as int).filter(pred),
        decreases palette.len() - i,
    {
        let c = palette[i];
        let ghost before = r@;
        proof {
            reveal_with_fuel(Seq::filter, 1);
            assert(palette@.take(i + 1).drop_last() =~= palette@.take(i as int));
            assert(palette@.take(i + 1).last() == c);
        }
        let found = c.shortcut();
        let keep = match found {
            Some(_) => true,
            None => false,
        };
        assert(keep == has_shortcut(c));
        assert(keep == pred(c));
        if keep {
            r.push(c);
        }
        assert(r@ == palette@.take(i + 1).filter(pred));
        i = i + 1;
    }
    assert(palette@.take(palette@.len() as int) =~= palette@);
    r
}

proof fn lemma_shortcut_owner(c: Command)
    ensures
        c.shortcut_spec() matches Some(s) ==> (command_for(s) == Some(c) || (c is TogglePasteboard
            && command_for(s) == Some(Command::ZoomShowAll))),
{
}

proof fn lemma_shortcut_in_palette(c: Command)
    ensures
        has_shortcut(c) ==> 0 <= palette_index(c) < PALETTE_LEN && palette_at(palette_index(c)) == c,
{
}

/// **No two commands share a shortcut**, save the one pair Animate itself
/// binds together: Show All and Pasteboard, both on Ctrl+Shift+W.
///
/// Two menu items sharing a shortcut means one of them silently never fires,
/// which is very hard to notice by hand.
pub proof fn shortcuts_do_not_collide(a: Command, b: Command)
    requires
        a.shortcut_spec() is Some,
        a.shortcut_spec() == b.shortcut_spec(),
    ensures
        a == b || (a is ZoomShowAll && b is TogglePasteboard) || (a is TogglePasteboard
            && b is ZoomShowAll),
{
    lemma_shortcut_owner(a);
    lemma_shortcut_owner(b);
}

/// **Every command with a shortcut can also be found in the palette**, so a
/// binding is never the only way to reach a command.
pub proof fn every_shortcut_is_in_the_palette(c: Command)
    requires
        has_shortcut(c),
    ensures
        palette_spec().contains(c),
        all_with_shortcuts_spec().contains(c),
{
    lemma_shortcut_in_palette(c);
    let i = palette_index(c);
    assert(palette_spec()[i] == c);
    let pred = carries_shortcut();
    assert(pred(palette_spec()[i]));
    palette_spec().lemma_filter_contains(pred, i);
}

/// **A shortcut's owner carries that shortcut**: whichever command the
/// default map names as the owner of a key combination answers to it, so
/// pressing the keys and reading the menu agree. Together with
/// [`shortcuts_do_not_collide`], every command that carries a shortcut is
/// found again from its keys.
pub proof fn a_shortcut_owner_carries_its_shortcut(s: KeyboardShortcut, c: Command)
    requires
        command_for(s) == Some(c),
    ensures
        c.shortcut_spec() == Some(s),
{
}

/// **A command's shortcut leads back to it**: the keys a command carries are
/// owned by that command in the default map — or, for Pasteboard, by Show
/// All, which Animate binds to the same keys.
pub proof fn a_command_is_found_from_its_shortcut(c: Command)
    requires
        c.shortcut_spec() is Some,
    ensures
        command_for(c.shortcut_spec()->0) == Some(c) || (c is TogglePasteboard && command_for(
            c.shortcut_spec()->0,
        ) == Some(Command::ZoomShowAll)),
{
    lemma_shortcut_owner(c);
}

/// What [`all_with_shortcuts`] returns.
pub open spec fn all_with_shortcuts_spec() -> Seq<Command> {
    palette_spec().filter(carries_shortcut())
}

/// **Every command has a label**: no menu item, palette row or tooltip is
/// blank. A camera move is offered under its own name, so it is labelled
/// as long as that name is.
pub proof fn every_command_has_a_label(c: Command)
    requires
        c is AddCameraMove ==> c->AddCameraMove_0.label@.len() > 0,
    ensures
        c.label_spec().len() > 0,
{
    reveal_strlit("New");
    reveal_strlit("Open…");
    reveal_strlit("Save");
    reveal_strlit("Save As…");
    reveal_strlit("Close");
    reveal_strlit("Exit");
    reveal_strlit("Import to Library…");
    reveal_strlit("Import to Stage…");
    reveal_strlit("Export Animate Document (.fla)…");
    reveal_strlit("Export Image…");
    reveal_strlit("Export PNG Sequence…");
    reveal_strlit("Export Video…");
    reveal_strlit("Export GIF…");
    reveal_strlit("Export WebP…");
    reveal_strlit("Import Sound…");
    reveal_strlit("Import Image…");
    reveal_strlit("Attach Sound to Frame");
    reveal_strlit("Remove Sound from Frame");
    reveal_strlit("Lip Sync…");
    reveal_strlit("New Mouth Symbol");
    reveal_strlit("Detect Beats");
    reveal_strlit("Fit to Narration");
    reveal_strlit("Import Captions (.srt)\u{2026}");
    reveal_strlit("Export Captions (.srt)\u{2026}");
    reveal_strlit("Undo");
    reveal_strlit("Redo");
    reveal_strlit("Cut");
    reveal_strlit("Copy");
    reveal_strlit("Paste");
    reveal_strlit("Delete");
    reveal_strlit("Select All");
    reveal_strlit("Deselect All");
    reveal_strlit("Duplicate");
    reveal_strlit("Zoom In");
    reveal_strlit("Zoom Out");
    reveal_strlit("100%");
    reveal_strlit("Fit in Window");
    reveal_strlit("Show Frame");
    reveal_strlit("Show All");
    reveal_strlit("Rulers");
    reveal_strlit("Grid");
    reveal_strlit("Guides");
    reveal_strlit("Snap to Objects");
    reveal_strlit("Pasteboard");
    reveal_strlit("Group");
    reveal_strlit("Ungroup");
    reveal_strlit("Bring to Front");
    reveal_strlit("Bring Forward");
    reveal_strlit("Send Backward");
    reveal_strlit("Send to Back");
    reveal_strlit("Retarget Performance");
    reveal_strlit("Swap Symbol");
    reveal_strlit("Paint Through");
    reveal_strlit("On Twos");
    reveal_strlit("On Threes");
    reveal_strlit("Select Same Colour");
    reveal_strlit("Thicken Lines");
    reveal_strlit("Thin Lines");
    reveal_strlit("Trace Bitmap");
    reveal_strlit("Trace as Line Art");
    reveal_strlit("Convert Lines to Fills");
    reveal_strlit("Expand Fill…");
    reveal_strlit("Smooth");
    reveal_strlit("Straighten");
    reveal_strlit("Recognise Shape");
    reveal_strlit("Flip Horizontal");
    reveal_strlit("Flip Vertical");
    reveal_strlit("Rotate 90\u{b0} CW");
    reveal_strlit("Rotate 90\u{b0} CCW");
    reveal_strlit("New Layer");
    reveal_strlit("New Folder");
    reveal_strlit("New Reference Layer");
    reveal_strlit("Import Video Reference\u{2026}");
    reveal_strlit("Import Image Sequence\u{2026}");
    reveal_strlit("Delete Layer");
    reveal_strlit("Convert to Symbol…");
    reveal_strlit("New Symbol…");
    reveal_strlit("Edit Symbol");
    reveal_strlit("Edit Document");
    reveal_strlit("Place on Stage");
    reveal_strlit("Duplicate Symbol");
    reveal_strlit("Delete Symbol");
    reveal_strlit("New Library Folder");
    reveal_strlit("Create Brush From Selection");
    reveal_strlit("Panel");
    reveal_strlit("Lock Layout");
    reveal_strlit("Next Theme");
    reveal_strlit("Theme");
    reveal_strlit("About BuzzAnimate");
    reveal_strlit("Reset Layout");
    reveal_strlit("Save Snapshot");
    reveal_strlit("Snapshots\u{2026}");
    reveal_strlit("Keyboard Shortcuts\u{2026}");
    reveal_strlit("Sun");
    reveal_strlit("Sky");
    reveal_strlit("Lamp");
    reveal_strlit("Gloom");
    reveal_strlit("Fire");
    reveal_strlit("Storm");
    reveal_strlit("Light Handles");
    reveal_strlit("Set the Scene\u{2026}");
    reveal_strlit("Direct a Story\u{2026}");
    reveal_strlit("Add Scene");
    reveal_strlit("Duplicate Scene");
    reveal_strlit("Add Person");
    reveal_strlit("Animate Selection\u{2026}");
    reveal_strlit("Add Follow-Through\u{2026}");
    reveal_strlit("Add Wiggle\u{2026}");
    reveal_strlit("Clear Modifiers");
    reveal_strlit("Bake Modifiers");
    reveal_strlit("Set Reverse Drawing");
    reveal_strlit("Clear Turnaround");
    reveal_strlit("Add Profile (right)");
    reveal_strlit("Add Profile (left)");
    reveal_strlit("Add Three-Quarter (right)");
    reveal_strlit("Add Three-Quarter (left)");
    reveal_strlit("Actions");
    reveal_strlit("Run Script");
    reveal_strlit("Clear Output");
    reveal_strlit("Create Classic Tween");
    reveal_strlit("Create Motion Tween");
    reveal_strlit("Create Shape Tween");
    reveal_strlit("Remove Tween");
    reveal_strlit("Insert Frame");
    reveal_strlit("Remove Frame");
    reveal_strlit("Insert Keyframe");
    reveal_strlit("Insert Blank Keyframe");
    reveal_strlit("Clear Keyframe");
    reveal_strlit("Play/Pause");
    reveal_strlit("Next Frame");
    reveal_strlit("Previous Frame");
    reveal_strlit("First Frame");
    reveal_strlit("Last Frame");
    reveal_strlit("Cut Frames");
    reveal_strlit("Copy Frames");
    reveal_strlit("Paste Frames");
    reveal_strlit("Clear Frames");
    reveal_strlit("Reverse Frames");
    reveal_strlit("Onion Skin");
    reveal_strlit("Auto Keyframe");
    reveal_strlit("Edit Multiple Frames");
    reveal_strlit("Enable Camera");
    reveal_strlit("Add Camera Keyframe");
    reveal_strlit("Remove Camera Keyframe");
    reveal_strlit("Add Light Keyframe");
    reveal_strlit("Remove Light Keyframe");
    reveal_strlit("Reset Camera");
    reveal_strlit("Tool");
    reveal_strlit("Nudge");
    reveal_strlit("Save as Template");
    reveal_strlit("New from Template");
    reveal_strlit("Left Edges");
    reveal_strlit("Horizontal Centre");
    reveal_strlit("Right Edges");
    reveal_strlit("Top Edges");
    reveal_strlit("Vertical Centre");
    reveal_strlit("Bottom Edges");
    reveal_strlit("Horizontal Centres");
    reveal_strlit("Vertical Centres");
    reveal_strlit("Horizontal Spacing");
    reveal_strlit("Vertical Spacing");
    reveal_strlit("Width");
    reveal_strlit("Height");
    reveal_strlit("Width and Height");
}

} // verus!
