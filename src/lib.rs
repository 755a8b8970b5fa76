//! A bounded, newest-first history of clipboard text, and the change-detection
//! step that feeds it from the system clipboard's change counter.
pub mod clock;
pub mod history;
pub mod watcher;
