//! The terminal layer: control sequences, styles, the cursor and the screen.
pub mod ansi_escape_sequences;
pub mod cursor;
pub mod device;
pub mod screen;
pub mod sink;
pub mod style;
pub mod text;
