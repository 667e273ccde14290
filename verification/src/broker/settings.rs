//! Settings of the broker server that are plain values.

use vstd::prelude::*;

verus! {

/// Settings of the peer (Raft) service.
#[derive(Debug, Clone, PartialEq, Eq)]
pub struct RaftConfig {
    /// The address the peer service listens on.
    pub listener_addr: String,
    /// The number of worker threads.
    pub worker: u8,
    /// The addresses of the other nodes.
    pub nodes: Vec<String>,
}

/// Settings of the server's log.
#[derive(Debug, Clone, PartialEq, Eq)]
pub struct LogConfig {
    level: String,
    dir: String,
    file: String,
}

} // verus!
