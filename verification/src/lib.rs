//! A bounded, linear undo/redo history over full-text snapshots, together
//! with the editor state that owns it: the text buffer, the current file
//! path, and a dirty flag.

pub mod history;
pub mod state;
