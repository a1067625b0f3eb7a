//! Terminal front end for an off-screen web renderer: frame storage and
//! normalisation, 256-colour ANSI encoding, keyboard escape decoding and the
//! startup/shutdown protocol between the engine thread and the UI thread.
pub mod ansi;
pub mod input;
pub mod launch;
pub mod render;
pub mod state;
pub mod ui;
