//! A minimal pastebin library: clients submit text and receive a short random
//! identifier; the identifier later retrieves the stored text rendered as an
//! HTML page.
//!
//! The library holds the verified core: identifier generation, upload
//! validation, page rendering, and an in-memory paste store that models the
//! insert/find contract of the backing document collection. Network I/O (the
//! HTTP server and the document database driver) lives outside the library.

pub mod handlers;
pub mod idgen;
pub mod pages;
pub mod paste;
pub mod store;
