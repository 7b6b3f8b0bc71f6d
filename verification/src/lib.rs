//! The terminal protocol layer of a text editor.
//!
//! The library decides and computes; it neither reads nor writes. Its
//! caller reads the keyboard and hands over what each read delivered, and
//! sends to the terminal the text that the library returns.
//!
//! - [`source`]: the input stream as data.
//! - [`grammar`]: what the bytes of the stream mean, and the laws of the
//!   decoder.
//! - [`event`]: the decoder of keys.
//! - [`cursor`]: the cursor position protocol and the cursor model.
//! - [`escape`], [`text`]: the escape sequences and the text they are made
//!   of.
//! - [`echo`]: the echo area of the mode line.
//! - [`session`]: the attributes of the terminal, raw mode and the way
//!   back.
//! - [`buffer`], [`document`]: the rope that holds text, and documents.
//! - [`screen`]: layout, drawing and the effects of keys.
//! - [`program`]: the loop of the editor.

pub mod buffer;
pub mod cursor;
pub mod document;
pub mod echo;
pub mod escape;
pub mod event;
pub mod grammar;
pub mod program;
pub mod screen;
pub mod session;
pub mod source;
pub mod text;
