use vstd::prelude::*;
use crate::state::{CommitModel, StateModel, spec_commit, spec_finish};

verus! {

/// Abstract protocol state: the shared cell together with the number of
/// walks in flight. The single worker thread performs `commit_step` only
/// between walks and `finish_step` only after the walk it started, which the
/// lemmas below take as their enabling conditions.
pub struct Proto {
    pub cell: StateModel,
    pub walks: nat,
}

/// The protocol's initial state: nothing pending, nothing walking.
pub open spec fn proto_init(p: Proto) -> bool {
    &&& p.cell is Idle
    &&& p.walks == 0
}

/// The protocol invariant: never more than one walk in flight, and the cell
/// reads `Running` only while that walk is in flight.
pub open spec fn proto_inv(p: Proto) -> bool {
    &&& p.walks <= 1
    &&& (p.cell is Running ==> p.walks == 1)
}

/// A submission overwrites the cell unconditionally and never touches a walk.
pub open spec fn submit_step(p: Proto, pattern: Seq<char>, roots: Seq<Seq<char>>) -> Proto {
    Proto { cell: StateModel::Requested { pattern, roots }, walks: p.walks }
}

/// The worker's commit: it launches a walk exactly when it captured a
/// non-empty request.
pub open spec fn commit_step(p: Proto) -> Proto {
    Proto {
        cell: spec_commit(p.cell).0,
        walks: p.walks + (if spec_commit(p.cell).1 is Start {
            1nat
        } else {
            0nat
        }),
    }
}

/// The worker's step when its walk has ended.
pub open spec fn finish_step(p: Proto) -> Proto {
    Proto { cell: spec_finish(p.cell), walks: (p.walks - 1) as nat }
}

/// Law: the initial state satisfies the invariant.
pub proof fn lemma_init_inv(p: Proto)
    requires
        proto_init(p),
    ensures
        proto_inv(p),
{
}

/// Law: submitting a request, at any moment, preserves the invariant and
/// starts no walk by itself.
pub proof fn lemma_submit_preserves_inv(p: Proto, pattern: Seq<char>, roots: Seq<Seq<char>>)
    requires
        proto_inv(p),
    ensures
        proto_inv(submit_step(p, pattern, roots)),
        submit_step(p, pattern, roots).walks == p.walks,
{
}

/// Law: the worker commits only between walks, so a commit preserves the
/// invariant and leaves at most one walk in flight.
pub proof fn lemma_commit_preserves_inv(p: Proto)
    requires
        proto_inv(p),
        p.walks == 0,
    ensures
        proto_inv(commit_step(p)),
        commit_step(p).walks <= 1,
{
}

/// Law: finishing the one walk in flight preserves the invariant and leaves
/// no walk running.
pub proof fn lemma_finish_preserves_inv(p: Proto)
    requires
        proto_inv(p),
        p.walks == 1,
    ensures
        proto_inv(finish_step(p)),
        finish_step(p).walks == 0,
{
}

/// Law: under the invariant at most one walk executes at any instant,
/// however many submissions overlap.
pub proof fn lemma_single_walker(p: Proto)
    requires
        proto_inv(p),
    ensures
        p.walks <= 1,
{
}

/// Law: between walks the cell never reads `Running`, so the worker
/// observing it at the top of its loop is indeed unreachable; the defensive
/// `Abort` decision fires only outside the protocol.
pub proof fn lemma_worker_never_sees_running(p: Proto)
    requires
        proto_inv(p),
        p.walks == 0,
    ensures
        !(p.cell is Running),
        !(spec_commit(p.cell).1 is Abort),
{
}

/// Law: an empty pattern settles the cell to idle with no walk launched, so
/// that round produces no events.
pub proof fn lemma_empty_pattern_settles(p: Proto, roots: Seq<Seq<char>>)
    ensures
        commit_step(submit_step(p, Seq::empty(), roots)).cell is Idle,
        commit_step(submit_step(p, Seq::empty(), roots)).walks == p.walks,
{
}

/// Law: two submissions before any walk starts leave exactly the later
/// request in the cell, and the one walk the worker then launches uses the
/// later pattern and roots.
pub proof fn lemma_latest_submit_wins(
    p: Proto,
    pat1: Seq<char>,
    roots1: Seq<Seq<char>>,
    pat2: Seq<char>,
    roots2: Seq<Seq<char>>,
)
    requires
        pat2.len() > 0,
    ensures
        submit_step(submit_step(p, pat1, roots1), pat2, roots2).cell == (StateModel::Requested {
            pattern: pat2,
            roots: roots2,
        }),
        spec_commit(submit_step(submit_step(p, pat1, roots1), pat2, roots2).cell).1
            == (CommitModel::Start { pattern: pat2, roots: roots2 }),
{
}

/// Law: a submission while a walk is in flight makes the cancellation
/// predicate true, and when the superseded walk ends, the new request is
/// still there for the worker's next commit.
pub proof fn lemma_cancel_keeps_request(
    p: Proto,
    pattern: Seq<char>,
    roots: Seq<Seq<char>>,
)
    requires
        proto_inv(p),
        p.walks == 1,
    ensures
        submit_step(p, pattern, roots).cell is Requested,
        finish_step(submit_step(p, pattern, roots)).cell == (StateModel::Requested {
            pattern,
            roots,
        }),
        proto_inv(finish_step(submit_step(p, pattern, roots))),
{
}

/// Law: a complete round from between walks: a non-empty submission is
/// committed as exactly one walk carrying that pattern and those roots,
/// and when the walk ends with nothing submitted meanwhile, the protocol
/// settles back to idle with the invariant intact.
pub proof fn lemma_round_trip(p: Proto, pattern: Seq<char>, roots: Seq<Seq<char>>)
    requires
        proto_inv(p),
        p.walks == 0,
        pattern.len() > 0,
    ensures
        ({
            let committed = commit_step(submit_step(p, pattern, roots));
            &&& spec_commit(submit_step(p, pattern, roots).cell).1 == (CommitModel::Start {
                pattern,
                roots,
            })
            &&& committed.walks == 1
            &&& proto_inv(committed)
            &&& finish_step(committed).cell is Idle
            &&& finish_step(committed).walks == 0
            &&& proto_inv(finish_step(committed))
        }),
{
}

} // verus!
