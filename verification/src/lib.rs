//! The editor-facing state of an animation program's interface: what each
//! panel and dialog remembers between frames, the command catalogue and its
//! shortcuts, the selection, and the small amount of arithmetic and text the
//! panels work out for themselves — all of it checkable without a window.
//!
//! Drawing is not here. A panel draws from this state and hands back what the
//! user asked for; what it decides along the way — which rows a tree shows,
//! which slot a drawing goes in, what a colour typed as text means, when the
//! opening scene gets out of the way — is.

pub mod text;
pub mod ids;
pub mod folders;
pub mod align;
pub mod command;
pub mod palette;
pub mod menus;
pub mod shortcuts;
pub mod actions;
pub mod export;
pub mod recovery;
pub mod selection;
pub mod color;
pub mod brush;
pub mod assets;
pub mod library;
pub mod cast;
pub mod layers;
pub mod filters;
pub mod lights;
pub mod lipsync;
pub mod motion;
pub mod rig;
pub mod sound;
pub mod splash;
pub mod picture;

pub use actions::{ActionsResponse, ActionsState, SampleEntry};
pub use assets::{AssetPanelState, ThumbnailSize};
pub use brush::{BrushKind, PatternShape};
pub use cast::CastPanelState;
pub use command::Command;
pub use export::{ContainerChoice, ExportKind, ExportResponse, ExportState, VideoChoice, VideoOptions};
pub use filters::{FilterPanelState, FilterTarget};
pub use library::{LibraryState, MotionFilter};
pub use lights::LightPanelState;
pub use lipsync::{Choice, LipSyncResponse};
pub use motion::MotionEditorState;
pub use palette::CommandPaletteState;
pub use recovery::{RecoveryChoice, RecoveryEntry, RecoveryState};
pub use selection::Selection;
pub use shortcuts::ShortcutEditorState;
pub use splash::SplashState;
pub use picture::{decode_picture, Picture, PixelLayout};
