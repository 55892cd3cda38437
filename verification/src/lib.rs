//! A central-role BLE event pipeline: one interface for acquiring the local
//! adapter, a session state machine for the scan lifecycle, and an ordered,
//! bounded queue that carries discovery events from the platform callback to
//! an application-supplied handler.

pub mod consumer;
pub mod errors;
pub mod events;
pub mod queue;
pub mod relay;
pub mod session;
