//! The core of a small text editor: the state of the document being edited,
//! the transitions that user intents and finished file operations cause, and
//! the decisions of the storage adapter that sits between the editor and the
//! filesystem. Nothing here draws a widget, opens a dialog or touches a file;
//! the surroundings do that and report back with plain values.

pub mod application;
pub mod document;
pub mod filesystem;
pub mod laws;
pub mod status;
