//! Core logic of an onboard rocket ground-support controller: the device
//! telemetry store, the durable network-credential store, the connectivity
//! state machine and the remote command protocol.
//!
//! Hardware drivers, the HTTP transport and the radio itself are external
//! collaborators; this crate holds the decisions, data and wire format that
//! sit between them, with machine-checked contracts.

pub mod api;
pub mod connectivity;
pub mod credentials;
pub mod dispatch;
pub mod status;
pub mod store;
pub mod wire;
