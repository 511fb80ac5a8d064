//! Verified publish-and-acknowledge library.
//!
//! A single textual message is published to one or more destinations (a chat
//! channel, an object store, a repository file, a repository issue thread).
//! Every publish attempt yields exactly one outcome record: when the live
//! transport fails, a deterministic fallback acknowledgment is synthesized in
//! its place and the record is flagged.

pub mod config;
pub mod destination;
pub mod fallback;
pub mod json;
pub mod publish;
pub mod record;
pub mod sync;
pub mod text;
pub mod transport;
