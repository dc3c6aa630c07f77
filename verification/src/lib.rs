//! A session launcher and attacher for a local terminal-multiplexer service.
//!
//! The library holds the decision logic of the launcher: classifying the
//! outcome of a liveness probe against a session socket, cleaning stale
//! registry entries, resolving the list of live sessions, validating
//! candidate session names, and choreographing the detach-and-launch
//! handoff. All input/output (directory scans, socket connections, the
//! interactive prompt, process forking) is performed by the surrounding
//! application, which hands the library plain values and acts on the
//! decisions it returns.
use vstd::prelude::*;

pub mod probe;
pub mod guard;
pub mod launch;
pub mod registry;
pub mod selector;

verus! {

/// The launcher's error taxonomy. Probe classifications are internal
/// outcomes (see [`probe::Verdict`]) and are never surfaced as errors.
#[derive(Clone, Copy, Debug, PartialEq, Eq, Structural)]
pub enum LaunchError {
    /// The registry directory exists but cannot be enumerated.
    RegistryUnavailable,
    /// A caller-supplied name matches no live session.
    SessionNotFound,
    /// Fork, detach or spawn failed during launch; no safe retry exists.
    HandoffBroken,
    /// An empty or whitespace-containing session name was entered.
    InvalidInput,
}

} // verus!
