//! Core of an interactive terminal application whose state is shared between
//! a UI loop and a background worker.
//!
//! The crate holds the action registry, the application state with its
//! invariant-preserving mutators, the input/tick event multiplexer and the
//! decisions of the UI loop and of the IO worker. Drawing, terminal set-up and
//! the asynchronous runtime live with the caller.

pub mod app;
pub mod inputs;
pub mod io;
pub mod ui_loop;
