use vstd::prelude::*;

use crate::consumer::drain_all;
use crate::consumer::EventHandler;
use crate::errors::AcquireError;
use crate::errors::ScanError;
use crate::queue::EventQueue;

verus! {

/// How the running platform hands out its adapters: as immediately usable
/// objects, or behind an explicit connect step that yields a live session
/// handle and can fail.
#[derive(Clone, Copy, PartialEq, Eq, Structural, Debug)]
pub enum PlatformKind {
    DirectUse,
    ConnectRequired,
}

/// The capability handle for one local BLE radio: always the first adapter
/// the platform enumerates, acquired once at startup and held for the life
/// of the scanning session.
#[derive(Clone, Copy, PartialEq, Eq, Structural, Debug)]
pub struct AdapterHandle {
    pub index: usize,
}

/// What adapter acquisition yields, given the platform's capability model,
/// how many adapters the host enumerates, and — where a connect step is
/// required — whether that step succeeded.
pub open spec fn acquire_outcome(
    platform: PlatformKind,
    adapter_count: nat,
    connect_ok: bool,
) -> Result<AdapterHandle, AcquireError> {
    if adapter_count == 0 {
        Err(AcquireError::NoAdapterFound)
    } else if platform is ConnectRequired && !connect_ok {
        Err(AcquireError::AdapterConnectFailed)
    } else {
        Ok(AdapterHandle { index: 0 })
    }
}

/// The adapter provider's decision, one interface for every platform: pick
/// the first enumerated adapter, or fail. The embedding program supplies
/// the enumeration count and, on platforms that need one, the outcome of
/// the connect step; `connect_ok` is ignored on direct-use platforms.
pub fn acquire_adapter(platform: PlatformKind, adapter_count: usize, connect_ok: bool) -> (r:
    Result<AdapterHandle, AcquireError>)
    ensures
        r == acquire_outcome(platform, adapter_count as nat, connect_ok),
{
    if adapter_count == 0 {
        Err(AcquireError::NoAdapterFound)
    } else {
        match platform {
            PlatformKind::DirectUse => Ok(AdapterHandle { index: 0 }),
            PlatformKind::ConnectRequired => {
                if connect_ok {
                    Ok(AdapterHandle { index: 0 })
                } else {
                    Err(AcquireError::AdapterConnectFailed)
                }
            },
        }
    }
}

/// Where a scanning session stands. `Failed` and `Terminated` are terminal:
/// no method accepts a session in either state.
#[derive(Clone, Copy, PartialEq, Eq, Structural, Debug)]
pub enum SessionState {
    Uninitialized,
    AdapterReady,
    Scanning,
    Failed,
    Terminated,
}

/// The state a session reaches when the outcome of adapter acquisition is
/// recorded: ready on success, terminally failed otherwise.
pub open spec fn acquired_state(acquired: bool) -> SessionState {
    if acquired {
        SessionState::AdapterReady
    } else {
        SessionState::Failed
    }
}

/// The state a session reaches when scanning is stopped: a scanning session
/// returns to ready; one that is not scanning is left as it is.
pub open spec fn stopped_state(s: SessionState) -> SessionState {
    match s {
        SessionState::Scanning => SessionState::AdapterReady,
        _ => s,
    }
}

/// Events flow from the relay to the consumer only while the session is
/// scanning.
pub open spec fn delivering(s: SessionState) -> bool {
    s is Scanning
}

/// One scanning session over one acquired adapter, from startup to process
/// exit.
pub struct Session {
    st: SessionState,
}

impl Session {
    /// Where the session stands.
    pub closed spec fn state(&self) -> SessionState {
        self.st
    }

    /// A fresh session: nothing acquired yet.
    pub fn new() -> (s: Session)
        ensures
            s.state() is Uninitialized,
    {
        Session { st: SessionState::Uninitialized }
    }

    /// Returns where the session stands.
    pub fn current(&self) -> (s: SessionState)
        ensures
            s == self.state(),
    {
        self.st
    }

    /// Records the outcome of adapter acquisition. Startup failures are
    /// fatal: on failure the session is terminally failed and never reaches
    /// scanning, so the consumer loop is never started.
    pub fn record_acquire(&mut self, acquired: bool)
        requires
            old(self).state() is Uninitialized,
        ensures
            final(self).state() == acquired_state(acquired),
    {
        if acquired {
            self.st = SessionState::AdapterReady;
        } else {
            self.st = SessionState::Failed;
        }
    }

    /// Records whether the radio accepted the scan request. Acceptance
    /// starts the scanning phase; refusal is fatal, with no automatic
    /// retry.
    pub fn start_scan(&mut self, radio_accepted: bool) -> (r: Result<(), ScanError>)
        requires
            old(self).state() is AdapterReady,
        ensures
            radio_accepted ==> r is Ok && final(self).state() is Scanning,
            !radio_accepted ==> r is Err && final(self).state() is Failed,
    {
        if radio_accepted {
            self.st = SessionState::Scanning;
            Ok(())
        } else {
            self.st = SessionState::Failed;
            Err(ScanError)
        }
    }

    /// Stops scanning. Idempotent: stopping a session that is not scanning
    /// is a no-op, never an error.
    pub fn stop_scan(&mut self) -> (r: Result<(), ScanError>)
        requires
            old(self).state() is Scanning || old(self).state() is AdapterReady,
        ensures
            r is Ok,
            final(self).state() == stopped_state(old(self).state()),
    {
        match self.st {
            SessionState::Scanning => {
                self.st = SessionState::AdapterReady;
            },
            _ => {},
        }
        Ok(())
    }

    /// Ends the session for good at process exit.
    pub fn terminate(&mut self)
        requires
            old(self).state() is Scanning || old(self).state() is AdapterReady,
        ensures
            final(self).state() is Terminated,
    {
        self.st = SessionState::Terminated;
    }
}

/// Graceful shutdown of a live session: stop the scan (so no new event is
/// relayed), drain every event still queued to the handler, in order, then
/// terminate the loop. Returns how many events were drained.
pub fn shutdown<H: EventHandler>(
    session: &mut Session,
    queue: &mut EventQueue,
    handler: &mut H,
) -> (drained: usize)
    requires
        old(session).state() is Scanning || old(session).state() is AdapterReady,
        old(queue).wf(),
    ensures
        final(session).state() is Terminated,
        final(queue).wf(),
        final(queue)@.len() == 0,
        final(queue).capacity_spec() == old(queue).capacity_spec(),
        final(handler).calls() == old(handler).calls() + old(queue)@,
        drained as nat == old(queue)@.len(),
{
    let stop = session.stop_scan();
    proof {
        assert(stop is Ok);
    }
    let report = drain_all(queue, handler);
    session.terminate();
    report.0
}

/// Law (stop is idempotent): stopping twice in a row leaves the session
/// exactly where one stop left it — and the stop contract answers `Ok` in
/// every case, so the second call produces no error.
pub proof fn lemma_stop_scan_idempotent(s: SessionState)
    requires
        s is Scanning || s is AdapterReady,
    ensures
        stopped_state(stopped_state(s)) == stopped_state(s),
{
}

/// Law (zero adapters): acquisition on a host that enumerates no adapter
/// fails with `NoAdapterFound` whatever the platform; a session that
/// records the failure is terminally failed, so it is never scanning and
/// the consumer loop is never started.
pub proof fn lemma_no_adapter_no_consumer(platform: PlatformKind, connect_ok: bool)
    ensures
        acquire_outcome(platform, 0, connect_ok) == Err::<AdapterHandle, AcquireError>(
            AcquireError::NoAdapterFound,
        ),
        acquired_state(false) is Failed,
        !delivering(acquired_state(false)),
{
}

} // verus!
