//! An IMAP4rev1 codec: the fragmenting encoder and the stream framer.
//!
//! Typed protocol values are serialised into the exact IMAP wire bytes,
//! split into [`encode::Fragment`]s at every literal so that a client or
//! server can honour the synchronising-literal handshake: the
//! concatenation of the fragment payloads is the on-wire encoding, and the
//! boundary between a line and the literal that follows it is exactly the
//! point where the sender must await a continuation.
//!
//! In the other direction, [`framer::ImapServerCodec`] reads a growable
//! buffer incrementally: it finds CRLF lines, detects literal
//! announcements, asks the caller to acknowledge or reject each literal,
//! and hands out one complete command frame at a time for the grammar
//! parser outside this library.

pub mod seqext;
pub mod secret;
pub mod frag_rules;
pub mod encode;
pub mod numfmt;
pub mod kw;
pub mod imapstr;
pub mod flag;
pub mod sequence;
pub mod status_items;
pub mod auth;
pub mod datetime;
pub mod mailbox;
pub mod fetch;
pub mod search;
pub mod extensions;
pub mod command;
pub mod envelope;
pub mod response;
pub mod body;
pub mod framer;

pub use encode::{Encode, Encoded, EncodeContext, Encoder, Fragment};
