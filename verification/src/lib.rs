//! A small text editor core: a rope-backed text buffer addressed by
//! character index and by (line, column), and the cursor controller that
//! turns key presses into buffer edits and cursor moves.
//!
//! The crate holds no terminal or file access. A front end feeds it keys
//! and file contents, and carries out the frames and save requests it
//! hands back.
//!
//! - [`lines`]: the line structure of a text, as mathematics.
//! - [`rope`]: the contracts assumed of the `ropey` crate.
//! - [`buffer`]: the text buffer.
//! - [`key`]: key presses.
//! - [`model`]: the editor as a state machine over plain values.
//! - [`laws`]: what is proved of that state machine.
//! - [`string_specs`]: the contracts assumed of a few `String` methods.
//! - [`editor`]: the editor itself, which carries the state machine out.

pub mod lines;
pub mod rope;
pub mod buffer;
pub mod key;
pub mod model;
pub mod laws;
pub mod string_specs;
pub mod editor;
