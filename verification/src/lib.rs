//! Update-artifact acquisition and delivery core.
//!
//! The library holds the decision logic of an updater backend: probing for a
//! writable destination directory, accounting for the bytes of a streamed
//! download with progress and milestone reporting, decoding a pushed
//! base64 payload in bounded-size chunks, and choosing the platform command
//! that opens, reveals or installs a finished artifact. The surrounding
//! process performs the filesystem, network and subprocess work and feeds
//! the observed outcomes into these verified state machines.

pub mod codec;
pub mod download;
pub mod errors;
pub mod launcher;
pub mod progress;
pub mod resolver;
pub mod strutil;
