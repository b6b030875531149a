//! The core of a chat command bot, free of I/O.
//!
//! A driver receives a message, parses it into a [`commands::Command`] and asks
//! [`commands::dispatch_command`] what to do next, again and again, reporting
//! after each step what came of it, until the dispatch is finished.

pub mod commands;
pub mod number;
pub mod services;
pub mod text;
pub mod trusted;
