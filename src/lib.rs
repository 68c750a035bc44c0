//! A small terminal text editor: line wrapping, a display-line buffer, a
//! scrolling viewport, a navigation state machine and a single-line editor.
//! Terminal I/O lives outside this library; everything here is a pure state
//! machine with verified contracts.

pub mod key;
pub mod text;
pub mod line_edit;
pub mod wrap;
pub mod buffer;
pub mod navigation;
pub mod editor;
pub mod style;
