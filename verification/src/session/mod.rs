//! The terminal inside a session.

pub mod laws;
pub mod parser;
