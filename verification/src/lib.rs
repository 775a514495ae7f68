//! Bridge between a publish/subscribe broker and a local device-agent
//! datagram endpoint: correlation state, dispatch and link state machines,
//! handshake construction, and log-line extraction.

pub mod agent;
pub mod broker;
pub mod correlation;
pub mod handshake;
pub mod laws;
pub mod logging;
pub mod logline;
pub mod payload;
pub mod topics;

use vstd::prelude::*;

verus! {

/// The fixed delay, in milliseconds, between reconnection attempts on
/// either link.
pub const RETRY_DELAY_MS: u64 = 500;

/// The capacity of the bounded command channel between the broker side and
/// the agent side.
pub const CHANNEL_CAPACITY: usize = 32;

/// The largest datagram accepted from the agent endpoint, in bytes.
pub const RECV_BUFFER_LEN: usize = 4096;

} // verus!
