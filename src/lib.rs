//! A bounded, persisted history of clipboard contents.
//!
//! The in-memory history, the change detection of the clipboard watcher and
//! the flush policy are verified here; the clipboard, the clock thread and the
//! file on disk are driven by the application around this library.
pub mod entry;
pub mod history;
pub mod watcher;
pub mod flush;
pub mod store;
