use vstd::prelude::*;

verus! {

/// Mathematical model of the shared search cell: a freshly submitted request,
/// a round the worker has committed to, or nothing pending.
pub enum StateModel {
    Requested { pattern: Seq<char>, roots: Seq<Seq<char>> },
    Running { pattern: Seq<char> },
    Idle,
}

/// The view of a list of root paths.
pub open spec fn roots_view(roots: Seq<String>) -> Seq<Seq<char>> {
    roots.map_values(|r: String| r@)
}

/// Search round state shared between the submitting side and the worker.
/// Exactly one value exists at any instant; it moves only through
/// `make_request`, `commit_request` and `finish_round`.
pub enum SearchState {
    New { pattern: String, roots: Vec<String> },
    InProgress { pattern: String },
    Done,
}

impl View for SearchState {
    type V = StateModel;

    open spec fn view(&self) -> StateModel {
        match self {
            SearchState::New { pattern, roots } => StateModel::Requested {
                pattern: pattern@,
                roots: roots_view(roots@),
            },
            SearchState::InProgress { pattern } => StateModel::Running { pattern: pattern@ },
            SearchState::Done => StateModel::Idle,
        }
    }
}

impl SearchState {
    /// True exactly when a freshly submitted request is pending; this is the
    /// cancellation predicate a running walk polls between files.
    pub fn is_new(&self) -> (b: bool)
        ensures
            b == (self@ is Requested),
    {
        match self {
            SearchState::New { .. } => true,
            _ => false,
        }
    }
}

/// What the worker decided when it looked at the cell: keep blocking, a
/// cleared empty request, a committed round, or the defensive fault of
/// observing a round it never started.
pub enum Commitment {
    Wait,
    Cleared,
    Started { pattern: String, roots: Vec<String> },
    Fault,
}

/// Model of a worker decision.
pub enum CommitModel {
    Block,
    Clear,
    Start { pattern: Seq<char>, roots: Seq<Seq<char>> },
    Abort,
}

impl View for Commitment {
    type V = CommitModel;

    open spec fn view(&self) -> CommitModel {
        match self {
            Commitment::Wait => CommitModel::Block,
            Commitment::Cleared => CommitModel::Clear,
            Commitment::Started { pattern, roots } => CommitModel::Start {
                pattern: pattern@,
                roots: roots_view(roots@),
            },
            Commitment::Fault => CommitModel::Abort,
        }
    }
}

/// The worker's commit step on the cell: an empty request settles to idle at
/// once, a non-empty one is captured and marked running, an idle cell makes
/// the worker block, and a cell already running is left as it stands with the
/// defensive fault reported.
pub open spec fn spec_commit(s: StateModel) -> (StateModel, CommitModel) {
    match s {
        StateModel::Requested { pattern, roots } => if pattern.len() == 0 {
            (StateModel::Idle, CommitModel::Clear)
        } else {
            (StateModel::Running { pattern }, CommitModel::Start { pattern, roots })
        },
        StateModel::Running { pattern } => (StateModel::Running { pattern }, CommitModel::Abort),
        StateModel::Idle => (StateModel::Idle, CommitModel::Block),
    }
}

/// The step taken when a walk has ended: a request submitted meanwhile is
/// kept for the next round; otherwise the cell settles to idle.
pub open spec fn spec_finish(s: StateModel) -> StateModel {
    if s is Requested {
        s
    } else {
        StateModel::Idle
    }
}

/// Build the cell value for a newly submitted request. A new submission
/// always supersedes whatever the cell held.
pub fn make_request(pattern: String, roots: Vec<String>) -> (st: SearchState)
    ensures
        st@ == (StateModel::Requested { pattern: pattern@, roots: roots_view(roots@) }),
{
    SearchState::New { pattern, roots }
}

/// The worker's commit step, executed under the cell's lock: decide what to
/// do with the observed state and produce the state to store back.
pub fn commit_request(st: SearchState) -> (r: (SearchState, Commitment))
    ensures
        r.0@ == spec_commit(st@).0,
        r.1@ == spec_commit(st@).1,
        r.1 matches Commitment::Started { pattern, .. } ==> pattern@.len() > 0,
{
    match st {
        SearchState::New { pattern, roots } => {
            if pattern.as_str().is_empty() {
                (SearchState::Done, Commitment::Cleared)
            } else {
                let committed = SearchState::InProgress { pattern: pattern.clone() };
                (committed, Commitment::Started { pattern, roots })
            }
        },
        SearchState::InProgress { pattern } => {
            (SearchState::InProgress { pattern }, Commitment::Fault)
        },
        SearchState::Done => (SearchState::Done, Commitment::Wait),
    }
}

/// The worker's step after a walk has ended, executed under the cell's lock:
/// settle to idle on natural exhaustion, but never clobber a request that
/// was submitted while the walk was in flight.
pub fn finish_round(st: SearchState) -> (r: SearchState)
    ensures
        r@ == spec_finish(st@),
{
    match st {
        SearchState::New { pattern, roots } => SearchState::New { pattern, roots },
        _ => SearchState::Done,
    }
}

} // verus!
