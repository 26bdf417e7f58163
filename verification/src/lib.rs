//! Client handshake core for a tunneling server's control channel.
//!
//! A newly connected client sends exactly one hello message, requesting a
//! public subdomain either anonymously or with a credential; this library
//! decides whether to assign a name or to reject the handshake. Sanitization,
//! collision checking against a live-registry snapshot, credential
//! adjudication, and the dispatch over the two wire shapes are all verified;
//! the surrounding transport (websocket framing, JSON decoding, process
//! configuration) lives with the hosting process.

pub mod auth;
pub mod casefold;
pub mod domain;
pub mod handshake;
pub mod namegen;
pub mod registry;
pub mod sanitize;
pub mod wire;
