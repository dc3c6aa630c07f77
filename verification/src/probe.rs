//! Classification of a liveness probe against one session socket.
//!
//! A probe connects to a session's socket, sends one status query and waits
//! for one framed reply. The application performs the connection and hands
//! the observed [`ConnectOutcome`] to [`classify`], which produces the
//! [`Verdict`] steering cleanup and filtering.
use vstd::prelude::*;

verus! {

/// The single framed reply a probe may receive over an open connection.
#[derive(Clone, Copy, Debug, PartialEq, Eq, Structural)]
pub enum ProbeReply {
    /// The fixed "connected" acknowledgement, the only reply recognised as alive.
    ConnectedAck,
    /// Any other reply value.
    Other,
}

/// What happened when the prober tried to reach one socket path.
#[derive(Clone, Copy, Debug, PartialEq, Eq, Structural)]
pub enum ConnectOutcome {
    /// The connection opened and exactly one framed reply arrived.
    Responded(ProbeReply),
    /// The connection opened but closed with no reply.
    NoResponse,
    /// The connection attempt failed with a "connection refused" condition.
    Refused,
    /// The connection attempt failed for any other reason (permission, generic I/O).
    OtherFailure,
}

/// The liveness verdict for one endpoint, derived transiently per probe.
#[derive(Clone, Copy, Debug, PartialEq, Eq, Structural)]
pub enum Verdict {
    /// The endpoint answered with the "connected" acknowledgement.
    Live,
    /// The socket file is an orphan of a crashed or exited service instance.
    Stale,
    /// The endpoint is not live, but not proven dead; it is left alone.
    Unreachable,
}

/// An outcome proving the endpoint alive: it answered the status query
/// with the fixed acknowledgement.
pub open spec fn is_live_outcome(o: ConnectOutcome) -> bool {
    o == ConnectOutcome::Responded(ProbeReply::ConnectedAck)
}

/// An outcome proving the socket file orphaned: the connection was refused.
pub open spec fn is_stale_outcome(o: ConnectOutcome) -> bool {
    o == ConnectOutcome::Refused
}

/// Every other outcome: not live, but with an ambiguous cause that must not
/// destroy state it cannot explain.
pub open spec fn is_unreachable_outcome(o: ConnectOutcome) -> bool {
    !is_live_outcome(o) && !is_stale_outcome(o)
}

/// The verdict assigned to a connection outcome.
pub open spec fn classify_spec(o: ConnectOutcome) -> Verdict {
    if is_live_outcome(o) {
        Verdict::Live
    } else if is_stale_outcome(o) {
        Verdict::Stale
    } else {
        Verdict::Unreachable
    }
}

/// Classifies one probe's connection outcome.
///
/// Only the fixed acknowledgement yields `Live`; only a refused connection
/// yields `Stale`; everything else — another reply, a silent close, or a
/// failure of ambiguous cause — yields `Unreachable`.
pub fn classify(o: &ConnectOutcome) -> (v: Verdict)
    ensures
        v == classify_spec(*o),
{
    match o {
        ConnectOutcome::Responded(ProbeReply::ConnectedAck) => Verdict::Live,
        ConnectOutcome::Responded(ProbeReply::Other) => Verdict::Unreachable,
        ConnectOutcome::NoResponse => Verdict::Unreachable,
        ConnectOutcome::Refused => Verdict::Stale,
        ConnectOutcome::OtherFailure => Verdict::Unreachable,
    }
}

/// Only a `Stale` verdict causes the socket file to be deleted.
pub open spec fn deletes_entry(v: Verdict) -> bool {
    v == Verdict::Stale
}

/// Says whether the prober removes the probed socket file: exactly on a
/// refused connection, never on an ambiguous failure or a live session.
pub fn should_delete(o: &ConnectOutcome) -> (r: bool)
    ensures
        r == deletes_entry(classify_spec(*o)),
        r == is_stale_outcome(*o),
{
    match o {
        ConnectOutcome::Refused => true,
        _ => false,
    }
}

/// The three probe classifications partition the connection outcomes:
/// for any outcome exactly one of live, stale and unreachable holds, and
/// the verdict names that one.
pub proof fn lemma_verdict_partition(o: ConnectOutcome)
    ensures
        is_live_outcome(o) || is_stale_outcome(o) || is_unreachable_outcome(o),
        is_live_outcome(o) ==> !is_stale_outcome(o) && !is_unreachable_outcome(o),
        is_stale_outcome(o) ==> !is_live_outcome(o) && !is_unreachable_outcome(o),
        is_unreachable_outcome(o) ==> !is_live_outcome(o) && !is_stale_outcome(o),
        classify_spec(o) == Verdict::Live <==> is_live_outcome(o),
        classify_spec(o) == Verdict::Stale <==> is_stale_outcome(o),
        classify_spec(o) == Verdict::Unreachable <==> is_unreachable_outcome(o),
{
}

} // verus!
