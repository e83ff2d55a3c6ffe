//! A minimal terminal text-viewer core: an input-mode state machine and a
//! rendering layer that turns logical editor state (cursor position, visible
//! rows, mode) into a sequence of terminal commands.
//!
//! The library itself performs no I/O: every render step produces the exact
//! list of [`terminal::TermCommand`]s to emit, and every keypress is handed in
//! as a plain [`editor::Key`] value. A thin driver owns the raw terminal
//! session, feeds keys in and writes the commands out.

pub mod editor;
pub mod terminal;

pub use editor::{die, Document, Editor, EditorMode, Key, Position, Row};
pub use terminal::{CmdView, CursorState, Size, TermCommand, Terminal};
