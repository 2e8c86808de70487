//! A streaming codec for the Telnet protocol (RFC 854, with the RFC 1073
//! window-size negotiation).
//!
//! The decoder is a resumable parser: it consumes a prefix of a caller-owned
//! `bytes::BytesMut`, recognises command sequences, in-band escapes,
//! subnegotiation frames and line-terminated user data, and emits at most
//! one event per call, keeping partial input for the next call.  The
//! encoder serialises one event onto an append-only byte sink.  Both carry
//! contracts over the pure model in [`model`], and the laws that tie the
//! two together stand in [`laws`].

pub mod bytes_buf;
pub mod codec;
pub mod command;
pub mod consts;
pub mod error;
pub mod event;
pub mod laws;
pub mod model;
pub mod option;
pub mod subnegotiation;
pub mod text;
