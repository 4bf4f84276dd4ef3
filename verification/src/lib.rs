//! An interactive terminal session. Lines typed at the prompt join a scrollback log; a line
//! that starts with a slash is one of a few session commands, recognized while it is typed.
//! The library decides what each key does and what each frame holds; reading the keys and
//! writing to the terminal is left to the program around it.

pub mod command;
pub mod draw;
pub mod input;
pub mod record;
pub mod render;
pub mod screen;
pub mod text;
