//! The session registry: a directory of local sockets, one per session.
//!
//! The application scans the registry directory and probes each entry; the
//! functions here decide which entries count as live sessions, map scan
//! failures to the launcher's error taxonomy, and perform the stale-entry
//! cleanup on a model of the directory's contents.
use vstd::prelude::*;

use crate::LaunchError;
use crate::probe::ConnectOutcome;
use crate::probe::Verdict;
use crate::probe::classify;
use crate::probe::classify_spec;

verus! {

/// One directory entry of the registry, together with what a probe of its
/// socket path observed. Non-socket entries are never probed; their
/// `outcome` field is ignored by every function here.
pub struct ScanEntry {
    /// The entry's file name, which is the session name.
    pub name: String,
    /// Whether the filesystem reports the entry as a socket.
    pub is_socket: bool,
    /// What the liveness probe of this entry's path observed.
    pub outcome: ConnectOutcome,
}

/// The result of enumerating the registry directory.
pub enum ScanOutcome {
    /// The directory does not exist: a valid steady state meaning no
    /// sessions are running.
    Missing,
    /// The directory exists but could not be enumerated.
    Failed,
    /// The directory's entries, in enumeration order, each with its probe
    /// outcome.
    Listed(Vec<ScanEntry>),
}

/// An entry counts as a live session exactly when the filesystem reports it
/// as a socket and its probe outcome classifies as `Live`.
pub open spec fn keeps_entry(e: ScanEntry) -> bool {
    e.is_socket && classify_spec(e.outcome) == Verdict::Live
}

/// The names of the live entries of a scan, in enumeration order.
pub open spec fn live_names(entries: Seq<ScanEntry>) -> Seq<Seq<char>>
    decreases entries.len(),
{
    if entries.len() == 0 {
        Seq::empty()
    } else {
        let rest = live_names(entries.drop_last());
        if keeps_entry(entries.last()) {
            rest.push(entries.last().name@)
        } else {
            rest
        }
    }
}

/// Resolves the scan of the registry into the list of live session names.
///
/// A missing directory is not a failure: it yields the empty list. A
/// directory that exists but cannot be enumerated is fatal, since the
/// caller cannot know the registry state. A listed directory yields
/// exactly the names of its live socket entries, in enumeration order.
pub fn resolve_sessions(scan: &ScanOutcome) -> (r: Result<Vec<String>, LaunchError>)
    ensures
        scan is Missing ==> r is Ok && r->Ok_0.deep_view() =~= Seq::<Seq<char>>::empty(),
        scan is Failed ==> r == Err::<Vec<String>, LaunchError>(LaunchError::RegistryUnavailable),
        scan matches ScanOutcome::Listed(entries) ==> r is Ok && r->Ok_0.deep_view()
            == live_names(entries@),
{
    match scan {
        ScanOutcome::Missing => Ok(Vec::new()),
        ScanOutcome::Failed => Err(LaunchError::RegistryUnavailable),
        ScanOutcome::Listed(entries) => {
            let mut live: Vec<String> = Vec::new();
            let mut i: usize = 0;
            while i < entries.len()
                invariant
                    i <= entries.len(),
                    live.deep_view() == live_names(entries@.take(i as int)),
                decreases entries.len() - i,
            {
                let e = &entries[i];
                let verdict = classify(&e.outcome);
                if e.is_socket && verdict == Verdict::Live {
                    live.push(e.name.clone());
                }
                proof {
                    let all = entries@;
                    assert(all.take(i as int + 1).drop_last() =~= all.take(i as int));
                    assert(all.take(i as int + 1).last() == all[i as int]);
                    assert(live.deep_view() =~= live_names(all.take(i as int + 1)));
                }
                i = i + 1;
            }
            proof {
                assert(entries@.take(entries@.len() as int) =~= entries@);
            }
            Ok(live)
        },
    }
}

/// A model of the registry directory's contents: the socket file names
/// present at one moment. The prober's only write access to the directory
/// is the best-effort removal of a stale entry, modelled by [`probe_entry`].
pub struct Registry {
    /// The socket file names, in enumeration order.
    pub names: Vec<String>,
}

impl View for Registry {
    type V = Seq<Seq<char>>;

    open spec fn view(&self) -> Seq<Seq<char>> {
        self.names.deep_view()
    }
}

/// The registry contents with every entry of the given name removed and the
/// others kept in order.
pub open spec fn remove_name(s: Seq<Seq<char>>, n: Seq<char>) -> Seq<Seq<char>>
    decreases s.len(),
{
    if s.len() == 0 {
        Seq::empty()
    } else {
        let rest = remove_name(s.drop_last(), n);
        if s.last() == n {
            rest
        } else {
            rest.push(s.last())
        }
    }
}

/// Nothing of the removed name survives a removal, nothing else is lost,
/// and a registry that never held the name is left untouched.
pub proof fn lemma_remove_name_removes(s: Seq<Seq<char>>, n: Seq<char>)
    ensures
        forall|i: int| 0 <= i < remove_name(s, n).len() ==> remove_name(s, n)[i] != n,
        forall|i: int| 0 <= i < s.len() && s[i] != n ==> remove_name(s, n).contains(s[i]),
        !s.contains(n) ==> remove_name(s, n) == s,
    decreases s.len(),
{
    if s.len() > 0 {
        lemma_remove_name_removes(s.drop_last(), n);
        assert forall|i: int| 0 <= i < s.len() && s[i] != n implies remove_name(s, n).contains(
            s[i],
        ) by {
            if i < s.len() - 1 {
                assert(s.drop_last()[i] == s[i]);
                let j = choose|j: int|
                    0 <= j < remove_name(s.drop_last(), n).len() && remove_name(s.drop_last(), n)[j]
                        == s[i];
                assert(remove_name(s, n)[j] == s[i]);
            } else {
                assert(remove_name(s, n).last() == s[i]);
            }
        }
        if !s.contains(n) {
            assert(forall|i: int| 0 <= i < s.drop_last().len() ==> s.drop_last()[i] == s[i]);
            assert(!s.drop_last().contains(n));
            assert(s.last() != n);
            assert(remove_name(s, n) =~= s);
        }
    }
}

/// Cleaning the same name out of the registry twice leaves exactly what one
/// cleaning leaves: probing the same stale socket path a second time finds
/// nothing left to delete and changes nothing.
pub proof fn lemma_cleanup_idempotent(s: Seq<Seq<char>>, n: Seq<char>)
    ensures
        remove_name(remove_name(s, n), n) == remove_name(s, n),
    decreases s.len(),
{
    if s.len() > 0 {
        lemma_cleanup_idempotent(s.drop_last(), n);
        if s.last() != n {
            let rest = remove_name(s.drop_last(), n);
            assert(rest.push(s.last()).drop_last() =~= rest);
            assert(remove_name(remove_name(s, n), n) =~= remove_name(s, n));
        }
    }
}

/// Probes one registry entry and applies the prober's cleanup decision to
/// the registry model.
///
/// The verdict is the probe classification of the outcome. Exactly on a
/// `Stale` verdict the entry's name is removed from the registry; removal
/// of a name no longer present is a harmless no-op, never an error, so two
/// launchers may race to clean the same stale entry.
pub fn probe_entry(reg: &mut Registry, name: &String, outcome: &ConnectOutcome) -> (v: Verdict)
    ensures
        v == classify_spec(*outcome),
        v == Verdict::Stale ==> final(reg)@ == remove_name(old(reg)@, name@),
        v != Verdict::Stale ==> final(reg)@ == old(reg)@,
{
    let verdict = classify(outcome);
    if verdict == Verdict::Stale {
        let mut kept: Vec<String> = Vec::new();
        let mut i: usize = 0;
        while i < reg.names.len()
            invariant
                i <= reg.names.len(),
                reg.names.deep_view() == old(reg)@,
                kept.deep_view() == remove_name(old(reg)@.take(i as int), name@),
            decreases reg.names.len() - i,
        {
            let keep = reg.names[i] != *name;
            if keep {
                let entry = reg.names[i].clone();
                kept.push(entry);
            }
            proof {
                let all = old(reg)@;
                assert(all.take(i as int + 1).drop_last() =~= all.take(i as int));
                assert(all.take(i as int + 1).last() == all[i as int]);
                assert(kept.deep_view() =~= remove_name(all.take(i as int + 1), name@));
            }
            i = i + 1;
        }
        proof {
            assert(old(reg)@.take(old(reg)@.len() as int) =~= old(reg)@);
        }
        reg.names = kept;
    }
    verdict
}

/// Looks the requested session name up among the live sessions.
///
/// Succeeds exactly when the name matches a live session; otherwise the
/// caller falls through to creating a fresh session under that name.
pub fn try_joining(session_name: &String, sessions: &Vec<String>) -> (r: Result<(), LaunchError>)
    ensures
        r is Ok <==> sessions.deep_view().contains(session_name@),
        r is Err ==> r == Err::<(), LaunchError>(LaunchError::SessionNotFound),
{
    let mut i: usize = 0;
    while i < sessions.len()
        invariant
            i <= sessions.len(),
            forall|j: int| 0 <= j < i ==> sessions.deep_view()[j] != session_name@,
        decreases sessions.len() - i,
    {
        if sessions[i] == *session_name {
            proof {
                assert(sessions.deep_view()[i as int] == session_name@);
            }
            return Ok(());
        }
        i = i + 1;
    }
    Err(LaunchError::SessionNotFound)
}

} // verus!
