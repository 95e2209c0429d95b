//! Decision logic of a GTK file-chooser backend: how each dialog is set up,
//! which filename filters it gets, how a session moves from toolkit
//! initialisation to teardown, and how native results become text.

pub mod chooser;
pub mod filter;
pub mod lifecycle;
pub mod session;
pub mod signal;
pub mod text;
pub mod trace;
