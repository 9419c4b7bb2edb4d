//! Transcript byte-range resolution and selective-disclosure planning for
//! attested payment sessions.
//!
//! The library locates, inside a raw captured HTTP exchange, the exact byte
//! ranges of semantically meaningful payment fields and of the `host:`
//! request header, decodes chunked transfer bodies for validation, checks
//! that a claimed transaction id is present in an authenticated transaction
//! list before its details may be disclosed, and derives the disclosure plan
//! that commit time and reveal time must agree on.

pub mod chunked;
pub mod config;
pub mod domain;
pub mod file_io;
pub mod http;
pub mod matching;
pub mod notary;
pub mod ownership;
pub mod patterns;
pub mod plan;
pub mod providers;
pub mod resolver;
pub mod splitter;
pub mod text_parser;
