//! Decision logic of an interactive front-end to a terminal multiplexer's
//! session commands.
//!
//! The crate never talks to a terminal or to the multiplexer itself. It tells
//! its caller what to do next and is told what came of it.

pub mod cli;
pub mod deps;
pub mod dispatch;
pub mod picker;
pub mod run;
pub mod sessions;
