//! The core of a client for a data-grid cluster that speaks a binary wire
//! protocol: everything the client decides and computes, without the sockets,
//! tasks and timers that carry it out.
//!
//! - `bytes`: little-endian numbers over a growing buffer and over a byte
//!   view that is read from the front.
//! - `codec`, `tuples`: how values stand on the wire, and that what is
//!   written is read back.
//! - `messaging`: the records that travel as payloads.
//! - `message`: the envelope of a record.
//! - `remote`: frames, the table that matches responses to requests, one
//!   connection, one member, the registry of members and the cluster.
//! - `protocol`: the handle of a replicated counter.
//! - `error`: what is reported to the caller.

pub mod bytes;
pub mod codec;
pub mod error;
pub mod message;
pub mod messaging;
pub mod protocol;
pub mod remote;
pub mod tuples;

pub use crate::error::HazelcastClientError;
pub use crate::protocol::pn_counter::PnCounter;
