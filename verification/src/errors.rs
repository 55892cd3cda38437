use vstd::prelude::*;

verus! {

/// Why adapter acquisition failed: the host enumerates no BLE radio, or the
/// platform's explicit connect step refused to yield a live session handle.
#[derive(Clone, Copy, PartialEq, Eq, Structural, Debug)]
pub enum AcquireError {
    NoAdapterFound,
    AdapterConnectFailed,
}

/// The radio rejected a scan request (busy, incompatible mode, or permission
/// denied — the platform does not say which).
#[derive(Clone, Copy, PartialEq, Eq, Structural, Debug)]
pub struct ScanError;

/// Backpressure signal: the queue was full, so this event was not stored
/// synchronously. Best-effort and non-fatal; the caller may defer the
/// enqueue or drop the event, but never inside the platform callback.
#[derive(Clone, Copy, PartialEq, Eq, Structural, Debug)]
pub struct EventDeliveryLost;

/// An application handler failed on one event. Local to that event: the
/// consumer loop records it and moves on.
#[derive(Clone, Copy, PartialEq, Eq, Structural, Debug)]
pub struct HandlerFault;

} // verus!
