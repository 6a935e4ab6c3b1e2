//! The server's side of a session.

pub mod common;
