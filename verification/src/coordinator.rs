use vstd::prelude::*;
use crate::state::{Commitment, SearchState, commit_request, finish_round, make_request};
use std::sync::Arc;

verus! {

#[verifier::external_type_specification]
#[verifier::external_body]
pub struct ExRawMutex(parking_lot::RawMutex);

#[verifier::external_type_specification]
#[verifier::external_body]
#[verifier::reject_recursive_types(R)]
#[verifier::reject_recursive_types(T)]
pub struct ExMutex<R, T: ?Sized>(lock_api::Mutex<R, T>);

/// Exclusive access to the locked cell, released when dropped. Verus
/// refuses the guard type's own declaration (its trait-bounded generics),
/// so the outside guard sits in this opaque holder.
#[verifier::external_body]
struct CellGuard<'a> {
    inner: parking_lot::MutexGuard<'a, SearchState>,
}

#[verifier::external_type_specification]
#[verifier::external_body]
pub struct ExCondvar(parking_lot::Condvar);

/// The single shared cell, guarded by its mutex, with the condition the
/// worker blocks on while nothing is pending.
struct SearchSync {
    state: parking_lot::Mutex<SearchState>,
    cond: parking_lot::Condvar,
}

/// Owns the search state machine's shared cell. The submitting side calls
/// `submit`; the one worker thread drives rounds through `acquire_round`,
/// polls `is_cancelled` between files, and calls `finish_walk` when its
/// walk has ended.
pub struct SearchCoordinator {
    sync: Arc<SearchSync>,
}

/// Relies on lock_api::Mutex::new: a mutex initially holding the value.
#[verifier::external_body]
fn new_state_mutex(st: SearchState) -> parking_lot::Mutex<SearchState> {
    parking_lot::Mutex::new(st)
}

/// Relies on parking_lot::Condvar::new: a fresh condition variable.
#[verifier::external_body]
fn new_condvar() -> parking_lot::Condvar {
    parking_lot::Condvar::new()
}

/// Relies on lock_api::Mutex::lock: blocks until the cell is exclusively
/// held; the guard releases it when dropped.
#[verifier::external_body]
fn lock_cell<'a>(m: &'a parking_lot::Mutex<SearchState>) -> CellGuard<'a> {
    CellGuard { inner: m.lock() }
}

/// Relies on core::mem::replace, through the guard's exclusive access to
/// the cell: store the given value and return the previous one.
#[verifier::external_body]
fn guard_replace(g: &mut CellGuard<'_>, st: SearchState) -> SearchState {
    core::mem::replace(&mut *g.inner, st)
}

/// Relies on parking_lot::Condvar::wait: atomically releases the guard's
/// lock and blocks until a notification, reacquiring the lock before it
/// returns.
#[verifier::external_body]
fn cond_wait(c: &parking_lot::Condvar, g: &mut CellGuard<'_>) {
    c.wait(&mut g.inner)
}

/// Relies on parking_lot::Condvar::notify_one: wakes one waiting thread.
#[verifier::external_body]
fn cond_notify(c: &parking_lot::Condvar) {
    let _ = c.notify_one();
}

/// Relies on std::sync::Arc::clone: a second handle to the same allocation.
#[verifier::external_body]
fn clone_sync(a: &Arc<SearchSync>) -> (r: Arc<SearchSync>)
    ensures
        r == *a,
{
    Arc::clone(a)
}

/// What one worker step drew from the cell: a committed round with a
/// non-empty pattern; an empty request cleared with no round; a sleep on
/// the condition variable that has ended; or the defensive fault of
/// observing a round the worker never started.
pub enum Acquired {
    Round { pattern: String, roots: Vec<String> },
    Cleared,
    Waited,
    Fault,
}

impl SearchCoordinator {
    /// A coordinator whose cell starts settled: the worker blocks until the
    /// first submission.
    pub fn new() -> SearchCoordinator {
        SearchCoordinator {
            sync: Arc::new(
                SearchSync { state: new_state_mutex(SearchState::Done), cond: new_condvar() },
            ),
        }
    }

    /// Another handle to the same shared cell, for the worker thread.
    pub fn handle(&self) -> (r: SearchCoordinator)
        ensures
            r == *self,
    {
        SearchCoordinator { sync: clone_sync(&self.sync) }
    }

    /// Record a request, superseding whatever the cell held, and wake the
    /// worker. Non-blocking: completion of a superseded round is never
    /// awaited. A request must carry at least one root path: an empty list
    /// is a programming error, fatal to the walk it would start.
    pub fn submit(&self, pattern: String, roots: Vec<String>)
        requires
            roots@.len() > 0,
    {
        let st = make_request(pattern, roots);
        let mut g = lock_cell(&self.sync.state);
        let _prev = guard_replace(&mut g, st);
        cond_notify(&self.sync.cond);
    }

    /// One step of the worker loop, to be repeated for the process
    /// lifetime: an idle cell puts the worker to sleep on the condition
    /// variable (no busy polling) until a submission wakes it; an
    /// empty-pattern request settles the cell back to idle with no round
    /// and no events; a non-empty request is captured with the cell marked
    /// in progress. Every returned round carries a non-empty pattern.
    pub fn acquire_round(&self) -> (r: Acquired)
        ensures
            r matches Acquired::Round { pattern, .. } ==> pattern@.len() > 0,
    {
        let mut g = lock_cell(&self.sync.state);
        let st = guard_replace(&mut g, SearchState::Done);
        let (next, decision) = commit_request(st);
        let _prev = guard_replace(&mut g, next);
        match decision {
            Commitment::Wait => {
                cond_wait(&self.sync.cond, &mut g);
                Acquired::Waited
            },
            Commitment::Cleared => Acquired::Cleared,
            Commitment::Started { pattern, roots } => Acquired::Round { pattern, roots },
            Commitment::Fault => Acquired::Fault,
        }
    }

    /// The cancellation predicate a walk polls between files: true once a
    /// later request has superseded the running round.
    pub fn is_cancelled(&self) -> bool {
        let mut g = lock_cell(&self.sync.state);
        let st = guard_replace(&mut g, SearchState::Done);
        let cancelled = st.is_new();
        let _prev = guard_replace(&mut g, st);
        cancelled
    }

    /// Settle the cell when a walk has ended: idle on natural exhaustion,
    /// but a request submitted while the walk was in flight is kept for the
    /// worker's next round.
    pub fn finish_walk(&self) {
        let mut g = lock_cell(&self.sync.state);
        let st = guard_replace(&mut g, SearchState::Done);
        let next = finish_round(st);
        let _prev = guard_replace(&mut g, next);
    }
}

} // verus!
