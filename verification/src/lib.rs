//! The client's side of a TLS1.3 session, from the ServerHello to the running session, and
//! what a client and a server keep of their sessions.
//!
//! The library does no input or output. A [`client::ClientSession`] is handed messages and
//! queues records, each with the keys to protect it with; the states of the handshake are
//! those of [`client::tls13::states::ClientState`]. Every step has a contract that says what
//! it answers, what it sends and what it changes, over the views of session and state. That
//! a session never gets stuck on its way, that only a server that was judged is accepted,
//! that a stored session is the one that is read back, and the like, stand as proof functions
//! beside the steps that they are about.
//!
//! Hashes, keys and signatures come from *ring*, behind [`crypto`], and webpki says which
//! texts are DNS names, behind [`pki`]. What these are trusted to do is written down there.

pub mod base;
pub mod check;
pub mod client;
pub mod codec;
pub mod crypto;
pub mod enums;
pub mod error;
pub mod extensions;
pub mod handshake;
pub mod hash_hs;
pub mod hsjoiner;
pub mod key;
pub mod key_log;
pub mod key_schedule;
pub mod kx;
pub mod message;
pub mod persist;
pub mod pki;
pub mod server;
pub mod session;
pub mod sign;
pub mod suites;
pub mod ticketer;
pub mod verify;
