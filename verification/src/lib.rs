//! A small file-transfer protocol with server-side text analysis.
//!
//! A client sends one local file over a TCP connection as a single frame:
//! a one-byte filename length, the filename bytes, and the raw file content.
//! The server decodes the frame, stores the content under a fixed prefix,
//! counts lines, words and bytes, and answers with one human-readable line.
//!
//! This crate holds the verified logic: the frame codec, the text analysis,
//! the word-extraction helpers, the response formatting, and the state
//! machines that drive the client and the per-connection server loop. The
//! sockets and the filesystem live outside it.

pub mod analysis;
pub mod codec;
pub mod words;
pub mod client;
pub mod server;
