//! The core of `ash`, an interactive assistant that turns plain-language requests into
//! shell commands with the help of a chat-completion service.
//!
//! Nothing in this crate reads, prints, talks to the network or starts a process. The
//! interactive loop is a state machine ([`session`]) over an append-only log
//! ([`transcript`]); the completion client ([`client`]) says what to send and what to make
//! of the answer; [`reply`] reads the model's answer as a command or as plain text. What
//! holds of every session is proved in [`laws`].

pub mod client;
pub mod laws;
pub mod reply;
pub mod session;
pub mod settings;
pub mod text;
pub mod transcript;
