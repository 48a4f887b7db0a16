//! Keeps the panes of managed processes alive while they move between the
//! visible tmux window and a hidden holding session.
//!
//! `context` decides which multiplexer requests each operation makes and
//! what their answers mean; `run` issues a sequence of requests one at a
//! time and stops at the first failure; `command` names the requests;
//! `parse` reads the multiplexer's output; `model` states what the requests
//! do to the multiplexer's sessions and flags.

pub mod command;
pub mod context;
pub mod model;
pub mod parse;
pub mod run;
