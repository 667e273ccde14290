//! Client-side MQTT session bookkeeping: configuration, the inflight
//! window, the session state kept across reconnects, and the decisions the
//! session makes on each command and each packet from the broker.

pub mod inflight;
pub mod config;
pub mod error;
pub mod state;
pub mod event;
pub mod session_v4;
pub mod session_v5;
pub mod transport;
