use vstd::prelude::*;

use crate::group::AppState;

verus! {

/// What the guard reads of a group's latest metrics snapshot.
#[derive(Clone, Copy, Debug, PartialEq, Eq, Structural)]
pub struct MetricsView {
    /// The leader this node has observed, if any.
    pub current_leader: Option<u64>,
    /// The node that the vote record names as leader.
    pub vote_leader_id: u64,
    /// Whether this node has durably recorded that vote.
    pub vote_committed: bool,
}

/// The guard's verdict on a group's initialization.
#[derive(Clone, Copy, Debug, PartialEq, Eq, Structural)]
pub enum InitVerdict {
    Initialized,
    NotInitialized,
    /// A committed vote for this node as leader while no leader is observed:
    /// the state is incoherent and the caller must stop with the metrics.
    Contradiction,
}

/// A committed vote names another node as leader, but no leader was ever
/// observed: the node was pushed a vote after losing its state and has not
/// synchronized yet.
pub open spec fn suspicious(m: MetricsView, self_id: u64) -> bool {
    m.vote_committed && m.vote_leader_id != self_id && m.current_leader is None
}

/// A committed vote names this node as leader, but this node sees no leader.
pub open spec fn contradictory(m: MetricsView, self_id: u64) -> bool {
    m.vote_committed && m.vote_leader_id == self_id && m.current_leader is None
}

/// The corrected verdict for a raw initialization flag and a snapshot.
pub open spec fn verdict(raw: bool, m: MetricsView, self_id: u64, strict: bool) -> InitVerdict {
    if !raw {
        InitVerdict::NotInitialized
    } else if suspicious(m, self_id) {
        InitVerdict::NotInitialized
    } else if strict && contradictory(m, self_id) {
        InitVerdict::Contradiction
    } else {
        InitVerdict::Initialized
    }
}

/// Corrects the raw initialization flag of a group for the bootstrap race.
/// `strict` enables the contradiction check; without it a contradictory
/// record is reported as initialized.
pub fn init_verdict(raw: bool, m: &MetricsView, self_id: u64, strict: bool) -> (r: InitVerdict)
    ensures
        r == verdict(raw, *m, self_id, strict),
        !raw ==> r == InitVerdict::NotInitialized,
        raw && m.current_leader is Some ==> r == InitVerdict::Initialized,
        raw && !m.vote_committed ==> r == InitVerdict::Initialized,
        raw && suspicious(*m, self_id) ==> r == InitVerdict::NotInitialized,
        raw && contradictory(*m, self_id) ==> r == (if strict {
            InitVerdict::Contradiction
        } else {
            InitVerdict::Initialized
        }),
{
    if !raw {
        return InitVerdict::NotInitialized;
    }
    let no_leader = m.current_leader.is_none();
    if m.vote_committed && m.vote_leader_id != self_id && no_leader {
        InitVerdict::NotInitialized
    } else if strict && m.vote_committed && m.vote_leader_id == self_id && no_leader {
        InitVerdict::Contradiction
    } else {
        InitVerdict::Initialized
    }
}

/// The verdict for this node's view of a group. The contradiction check runs
/// where the state asks for it, and in builds that keep integrity checks
/// (`debug_checks`).
pub fn guarded_verdict<H>(state: &AppState<H>, raw: bool, m: &MetricsView, debug_checks: bool) -> (r:
    InitVerdict)
    ensures
        r == verdict(raw, *m, state.id, state.strict_integrity || debug_checks),
{
    init_verdict(raw, m, state.id, state.strict_integrity || debug_checks)
}

/// Asking twice with nothing changed in between gives the same verdict.
pub proof fn lemma_verdict_repeatable(raw: bool, m1: MetricsView, m2: MetricsView, self_id: u64, strict: bool)
    requires
        m1 == m2,
    ensures
        verdict(raw, m1, self_id, strict) == verdict(raw, m2, self_id, strict),
{
}

/// A group whose raw flag is false is not initialized, whatever its metrics.
pub proof fn lemma_not_raw_not_initialized(m: MetricsView, self_id: u64, strict: bool)
    ensures
        verdict(false, m, self_id, strict) == InitVerdict::NotInitialized,
{
}

/// A committed vote for another node with no observed leader makes the
/// verdict "not initialized".
pub proof fn lemma_suspicious_not_initialized(m: MetricsView, self_id: u64, strict: bool)
    requires
        m.current_leader is None,
        m.vote_committed,
        m.vote_leader_id != self_id,
    ensures
        verdict(true, m, self_id, strict) == InitVerdict::NotInitialized,
{
}

/// With an observed leader the raw flag stands, whatever the vote record.
pub proof fn lemma_observed_leader_initialized(m: MetricsView, self_id: u64, strict: bool)
    requires
        m.current_leader is Some,
    ensures
        verdict(true, m, self_id, strict) == InitVerdict::Initialized,
{
}

/// Under the integrity check, a committed vote for this node with no observed
/// leader is a contradiction, never a verdict.
pub proof fn lemma_self_vote_contradiction(m: MetricsView, self_id: u64)
    requires
        m.current_leader is None,
        m.vote_committed,
        m.vote_leader_id == self_id,
    ensures
        verdict(true, m, self_id, true) == InitVerdict::Contradiction,
{
}

/// The guard turns a raw "initialized" into "not initialized" only in the
/// suspicious pattern.
pub proof fn lemma_only_suspicious_demoted(m: MetricsView, self_id: u64, strict: bool)
    requires
        verdict(true, m, self_id, strict) == InitVerdict::NotInitialized,
    ensures
        suspicious(m, self_id),
{
}

} // verus!
