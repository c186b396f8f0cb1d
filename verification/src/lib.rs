//! Decision logic of a small prompt relay: a web route that forwards a
//! question to a conversational session and hands the completion back,
//! whole or fragment by fragment.

pub mod config;
pub mod prompt;
pub mod reply;
pub mod session;
pub mod stream;
