//! Decisions of the watch loop: which backend variant to construct, and
//! whether the worker keeps retrying or stops for good.
//!
//! The worker itself — one dedicated thread per watcher — lives at the
//! caller's edge. Each of its iterations constructs a backend bound to the
//! watched path and the Change Signal, runs it until it fails, and feeds
//! what happened back through [`loop_should_terminate`].

use vstd::prelude::*;
use vstd::string::StringExecFns;

use crate::error::Error;

verus! {

/// The two interchangeable file-watching backend variants.
#[derive(Debug, Clone, Copy, PartialEq, Eq, Structural)]
pub enum BackendKind {
    EventDriven,
    Polling,
}

/// The one host-architecture override value that selects the polling
/// backend.
pub open spec fn polling_host_arch() -> Seq<char> {
    "aarch64-darwin"@
}

/// Picks the backend variant from the host-architecture override: exactly
/// one architecture value maps to the polling backend; any other value, and
/// the absence of the override, map to the event-driven backend.
pub fn select_backend(host_arch: Option<String>) -> (k: BackendKind)
    ensures
        k == BackendKind::Polling <==> (host_arch matches Some(a) && a@ == polling_host_arch()),
{
    match host_arch {
        Some(a) => {
            if a == String::from_str("aarch64-darwin") {
                BackendKind::Polling
            } else {
                BackendKind::EventDriven
            }
        }
        None => BackendKind::EventDriven,
    }
}

/// What one iteration of the watch loop observed: backend construction
/// failed, or a constructed backend's blocking run returned — cleanly or
/// with an error. A backend never returns cleanly while still watching, so
/// any return restarts the loop.
#[derive(Debug)]
pub enum WatchEvent {
    SetupFailed(Error),
    RunEnded(Option<Error>),
}

/// Decides whether the watch loop stops after this iteration. Only a fatal
/// setup failure — backend construction failing with anything but the
/// transient "not yet watchable" notification error — terminates the
/// worker; a transient setup failure and any run failure are retried.
pub fn loop_should_terminate(event: &WatchEvent) -> (stop: bool)
    ensures
        stop <==> (event matches WatchEvent::SetupFailed(e) && !(e is NotifyError)),
{
    match event {
        WatchEvent::SetupFailed(e) => match e {
            Error::NotifyError(_) => false,
            _ => true,
        },
        WatchEvent::RunEnded(_) => false,
    }
}

} // verus!
