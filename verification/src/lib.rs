//! Verified core of an interactive terminal file browser.
//!
//! The library owns the application's state model and its reducer, the
//! directory-listing assembly (permission strings and the directories-first
//! sort), and the preview classification of file content into text, binary
//! or image.  Everything that touches the terminal or the filesystem lives
//! outside: the reducer is a pure function from a state and an action to the
//! next state together with an optional [`state::Effect`] describing the
//! filesystem work to perform; the surrounding program performs it and feeds
//! the outcome back in as a further action.

pub mod entries;
pub mod laws;
pub mod path;
pub mod preview;
pub mod state;

pub use entries::FsEntry;
pub use entries::RawEntry;
pub use path::FsPath;
pub use preview::DefaultPreviewLoader;
pub use preview::PreviewContent;
pub use preview::PreviewLoader;
pub use preview::PreviewState;
pub use preview::TreeItem;
pub use state::Action;
pub use state::ActiveFocus;
pub use state::AppState;
pub use state::ClipboardOp;
pub use state::Effect;
pub use state::PopupState;
pub use state::Reducer;
