//! Decoding of the terminal's input bytes.
pub mod keyboard;
