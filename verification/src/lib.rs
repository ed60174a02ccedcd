//! Text-buffer and viewport engine for a terminal editor.
//!
//! The library owns the grapheme-aware line model, the document buffer built
//! from it, and the view layer that maps between logical document coordinates
//! (line, grapheme index) and physical terminal coordinates (row, column).
//! Terminal painting, key decoding and file reading/writing live outside the
//! library and talk to it through plain values.

pub mod args;
pub mod buffer;
pub mod command_bar;
pub mod decimal;
pub mod document_status;
pub mod editor;
pub mod editor_commands;
pub mod line;
pub mod location;
pub mod message_bar;
pub mod multi_editor;
pub mod position;
pub mod search_info;
pub mod size;
pub mod status_bar;
pub mod unicode;
pub mod view;
