//! The detach-and-launch choreography.
//!
//! To attach a client without leaving a deadbeat parent on the terminal,
//! the launcher forks; the parent exits at once, the child detaches from
//! the session but keeps the original standard streams open, spawns the
//! real client so that it shares (not duplicates) those streams, and then
//! exits itself. The application performs the fork and the spawn; the
//! functions here decide each step, and the handoff state machine proves
//! that a successful run leaves only the client on the terminal.
use vstd::prelude::*;

use crate::LaunchError;
use crate::registry::try_joining;
use crate::selector::LaunchRequest;

verus! {

/// What the detach step (fork into a daemonized child, standard streams
/// kept open) reported to the orchestrator.
#[derive(Clone, Copy, Debug, PartialEq, Eq, Structural)]
pub enum ForkOutcome {
    /// This process is the original parent.
    Parent,
    /// This process is the detached child holding the original streams.
    Child,
    /// The fork or the detach step failed.
    Failed,
}

/// The orchestrator's next action after the detach step.
#[derive(Clone, Copy, Debug, PartialEq, Eq, Structural)]
pub enum LaunchAction {
    /// Exit immediately without touching the terminal: the parent branch.
    ExitWithoutClient,
    /// Spawn the client sharing the inherited streams, then exit: the
    /// child branch.
    SpawnClient,
}

/// Decides the orchestrator's action from the detach step's outcome.
///
/// The parent branch terminates immediately; the child branch spawns the
/// client; a failed fork or detach is a broken handoff, fatal with no
/// retry, since a half-detached process would corrupt terminal state.
pub fn launch_decision(f: &ForkOutcome) -> (r: Result<LaunchAction, LaunchError>)
    ensures
        *f == ForkOutcome::Parent ==> r == Ok::<LaunchAction, LaunchError>(
            LaunchAction::ExitWithoutClient,
        ),
        *f == ForkOutcome::Child ==> r == Ok::<LaunchAction, LaunchError>(
            LaunchAction::SpawnClient,
        ),
        *f == ForkOutcome::Failed ==> r == Err::<LaunchAction, LaunchError>(
            LaunchError::HandoffBroken,
        ),
{
    match f {
        ForkOutcome::Parent => Ok(LaunchAction::ExitWithoutClient),
        ForkOutcome::Child => Ok(LaunchAction::SpawnClient),
        ForkOutcome::Failed => Err(LaunchError::HandoffBroken),
    }
}

/// Starts a fresh session under the given name.
///
/// Creation itself is resolved by the client being launched with the name;
/// nothing remains to fail here.
pub fn spawn(session: String) -> (r: Result<(), LaunchError>)
    ensures
        r is Ok,
{
    let _ = session;
    Ok(())
}

/// The top-level plan for one invocation of the launcher.
pub enum LaunchPlan {
    /// No name was supplied: offer the live sessions interactively.
    SelectInteractively,
    /// The supplied name matches a live session: attach to it directly,
    /// no prompt shown.
    JoinExisting(LaunchRequest),
    /// The supplied name matches no live session: create a fresh session
    /// under it. Absence of the name is not an error.
    CreateNew(LaunchRequest),
}

/// Decides what this invocation does from the caller-supplied name, if
/// any, and the resolved live sessions.
pub fn plan_launch(session_arg: Option<LaunchRequest>, live: &Vec<String>) -> (r: LaunchPlan)
    ensures
        session_arg is None ==> r is SelectInteractively,
        session_arg matches Some(req) ==> (if live.deep_view().contains(req@) {
            r matches LaunchPlan::JoinExisting(chosen) && chosen@ == req@
        } else {
            r matches LaunchPlan::CreateNew(chosen) && chosen@ == req@
        }),
{
    match session_arg {
        None => LaunchPlan::SelectInteractively,
        Some(req) => {
            match try_joining(req.name(), live) {
                Ok(()) => LaunchPlan::JoinExisting(req),
                Err(_) => LaunchPlan::CreateNew(req),
            }
        },
    }
}

/// Which of the three processes of a handoff are alive and which hold the
/// original terminal's standard streams.
pub struct HandoffState {
    /// The launcher process, the original parent.
    pub launcher_alive: bool,
    /// Whether the launcher still holds the terminal streams.
    pub launcher_on_terminal: bool,
    /// The forked, detached child.
    pub child_alive: bool,
    /// Whether the child holds the terminal streams.
    pub child_on_terminal: bool,
    /// The spawned client.
    pub client_alive: bool,
    /// Whether the client holds the terminal streams.
    pub client_on_terminal: bool,
}

/// The steps of a successful handoff, in the order they occur.
pub enum HandoffEvent {
    /// The launcher forks; the child inherits the launcher's streams.
    Fork,
    /// The parent branch exits immediately, releasing its streams.
    ParentExit,
    /// The child spawns the client, which shares the child's streams.
    SpawnClient,
    /// The child exits, releasing its streams.
    ChildExit,
}

/// Before anything happens, only the launcher exists and it holds the
/// terminal.
pub open spec fn handoff_init() -> HandoffState {
    HandoffState {
        launcher_alive: true,
        launcher_on_terminal: true,
        child_alive: false,
        child_on_terminal: false,
        client_alive: false,
        client_on_terminal: false,
    }
}

/// When a handoff step can occur: each process acts only while alive, the
/// fork and the spawn pass the streams on only from a holder, and each
/// process is created once.
pub open spec fn handoff_enabled(s: HandoffState, e: HandoffEvent) -> bool {
    match e {
        HandoffEvent::Fork => s.launcher_alive && s.launcher_on_terminal && !s.child_alive,
        HandoffEvent::ParentExit => s.launcher_alive,
        HandoffEvent::SpawnClient => s.child_alive && s.child_on_terminal && !s.client_alive,
        HandoffEvent::ChildExit => s.child_alive,
    }
}

/// The effect of one handoff step. A new process inherits the streams of
/// the one that made it — shared, not duplicated — and an exiting process
/// releases its hold.
pub open spec fn handoff_step(s: HandoffState, e: HandoffEvent) -> HandoffState {
    match e {
        HandoffEvent::Fork => HandoffState {
            child_alive: true,
            child_on_terminal: s.launcher_on_terminal,
            ..s
        },
        HandoffEvent::ParentExit => HandoffState {
            launcher_alive: false,
            launcher_on_terminal: false,
            ..s
        },
        HandoffEvent::SpawnClient => HandoffState {
            client_alive: true,
            client_on_terminal: s.child_on_terminal,
            ..s
        },
        HandoffEvent::ChildExit => HandoffState { child_alive: false, child_on_terminal: false, ..s },
    }
}

/// The state after a sequence of handoff steps, applied in order.
pub open spec fn handoff_run(s: HandoffState, evs: Seq<HandoffEvent>) -> HandoffState
    decreases evs.len(),
{
    if evs.len() == 0 {
        s
    } else {
        handoff_run(handoff_step(s, evs[0]), evs.drop_first())
    }
}

/// Whether every step of a sequence is enabled in the state it runs from.
pub open spec fn handoff_run_enabled(s: HandoffState, evs: Seq<HandoffEvent>) -> bool
    decreases evs.len(),
{
    evs.len() == 0 || (handoff_enabled(s, evs[0]) && handoff_run_enabled(
        handoff_step(s, evs[0]),
        evs.drop_first(),
    ))
}

/// The steps of a successful launch: fork, parent exit, client spawn,
/// child exit.
pub open spec fn successful_handoff() -> Seq<HandoffEvent> {
    seq![
        HandoffEvent::Fork,
        HandoffEvent::ParentExit,
        HandoffEvent::SpawnClient,
        HandoffEvent::ChildExit,
    ]
}

/// Handoff isolation: the successful launch sequence runs with every step
/// enabled, and afterwards the launcher and its forked child have exited
/// and released the terminal, leaving the spawned client as the only
/// process holding the inherited terminal streams.
pub proof fn lemma_handoff_isolation()
    ensures
        handoff_run_enabled(handoff_init(), successful_handoff()),
        ({
            let end = handoff_run(handoff_init(), successful_handoff());
            &&& end.client_alive
            &&& end.client_on_terminal
            &&& !end.launcher_alive
            &&& !end.launcher_on_terminal
            &&& !end.child_alive
            &&& !end.child_on_terminal
        }),
{
    reveal_with_fuel(handoff_run, 5);
    reveal_with_fuel(handoff_run_enabled, 5);
    let evs = successful_handoff();
    let s0 = handoff_init();
    let s1 = handoff_step(s0, HandoffEvent::Fork);
    let s2 = handoff_step(s1, HandoffEvent::ParentExit);
    let s3 = handoff_step(s2, HandoffEvent::SpawnClient);
    let s4 = handoff_step(s3, HandoffEvent::ChildExit);
    assert(evs.drop_first() =~= seq![
        HandoffEvent::ParentExit,
        HandoffEvent::SpawnClient,
        HandoffEvent::ChildExit,
    ]);
    assert(evs.drop_first().drop_first() =~= seq![
        HandoffEvent::SpawnClient,
        HandoffEvent::ChildExit,
    ]);
    assert(evs.drop_first().drop_first().drop_first() =~= seq![HandoffEvent::ChildExit]);
    assert(evs.drop_first().drop_first().drop_first().drop_first() =~= Seq::<
        HandoffEvent,
    >::empty());
    assert(handoff_run(s0, evs) == s4);
    assert(handoff_run_enabled(s0, evs));
}

} // verus!
