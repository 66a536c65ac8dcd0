//! Extraction of a typed keyboard-layout description from C firmware source.
//!
//! The library locates the keymap matrix declaration inside a firmware
//! source file, strips block comments, segments the declaration into named
//! layers with balanced-parenthesis macro invocations, and resolves every
//! key expression into a typed key action drawn from a closed
//! vocabulary.  Every function is specified against a mathematical model
//! of the text (sequences of characters) and verified.

pub mod console;
pub mod error;
pub mod glyphs;
pub mod keycode;
pub mod layout;
pub mod parser;
pub mod pixels;
pub mod text;
