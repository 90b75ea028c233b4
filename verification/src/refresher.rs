//! The metadata refresher as a state machine: when to fetch, when to publish
//! a new snapshot, and when repeated failure becomes fatal.

use vstd::prelude::*;

verus! {

/// The number of consecutive failed refreshes that is still tolerated.
pub const FAILURE_THRESHOLD: u32 = 4;

/// Where the refresher stands.
#[derive(Debug, Clone, Copy, PartialEq, Eq)]
pub enum RefreshState {
    /// Waiting for the next tick; the last refresh succeeded.
    Idle,
    /// A fetch is under way, after this many consecutive failures.
    Fetching(u32),
    /// Waiting for the next tick after this many consecutive failures.
    Failed(u32),
    /// Too many consecutive failures: the refresher has stopped for good.
    Fatal,
}

/// What happened outside.
#[derive(Debug, Clone, Copy, PartialEq, Eq)]
pub enum RefreshEvent {
    /// The interval timer fired.
    Tick,
    /// The registry lists were fetched and a snapshot was built.
    Fetched,
    /// A fetch failed.
    FetchFailed,
}

/// What the caller has to do next.
#[derive(Debug, Clone, Copy, PartialEq, Eq)]
pub enum RefreshAction {
    /// Wait for the next tick.
    Wait,
    /// Fetch the registry lists.
    Fetch,
    /// Publish the snapshot just built, then wait for the next tick.
    Publish,
    /// Stop the refresher and shut the whole pipeline down.
    Shutdown,
}

/// The number of consecutive failures that a state stands for.
pub open spec fn failures(state: RefreshState) -> nat {
    match state {
        RefreshState::Idle => 0,
        RefreshState::Fetching(n) => n as nat,
        RefreshState::Failed(n) => n as nat,
        RefreshState::Fatal => (FAILURE_THRESHOLD + 1) as nat,
    }
}

/// The transition function: the next state and the action owed.
pub open spec fn next(state: RefreshState, event: RefreshEvent) -> (RefreshState, RefreshAction) {
    match (state, event) {
        (RefreshState::Fatal, _) => (RefreshState::Fatal, RefreshAction::Shutdown),
        (RefreshState::Idle, RefreshEvent::Tick) => (
            RefreshState::Fetching(0),
            RefreshAction::Fetch,
        ),
        (RefreshState::Failed(n), RefreshEvent::Tick) => (
            RefreshState::Fetching(n),
            RefreshAction::Fetch,
        ),
        (RefreshState::Fetching(_), RefreshEvent::Fetched) => (
            RefreshState::Idle,
            RefreshAction::Publish,
        ),
        (RefreshState::Fetching(n), RefreshEvent::FetchFailed) => if n >= FAILURE_THRESHOLD {
            (RefreshState::Fatal, RefreshAction::Shutdown)
        } else {
            (RefreshState::Failed((n + 1) as u32), RefreshAction::Wait)
        },
        (RefreshState::Fetching(n), RefreshEvent::Tick) => (
            RefreshState::Fetching(n),
            RefreshAction::Wait,
        ),
        (RefreshState::Idle, _) => (RefreshState::Idle, RefreshAction::Wait),
        (RefreshState::Failed(n), _) => (RefreshState::Failed(n), RefreshAction::Wait),
    }
}

/// The state reached from `state` after `rounds` refresh rounds that all
/// fail: each round is a tick followed by a failed fetch.
pub open spec fn after_failed_rounds(state: RefreshState, rounds: nat) -> RefreshState
    decreases rounds,
{
    if rounds == 0 {
        state
    } else {
        let before = after_failed_rounds(state, (rounds - 1) as nat);
        next(next(before, RefreshEvent::Tick).0, RefreshEvent::FetchFailed).0
    }
}

impl RefreshState {
    /// The state in which the refresher starts, once the first snapshot has
    /// been built.
    pub fn new() -> (r: RefreshState)
        ensures
            r == RefreshState::Idle,
    {
        RefreshState::Idle
    }

    /// Takes one event and returns the next state with the action owed.
    pub fn step(self, event: RefreshEvent) -> (r: (RefreshState, RefreshAction))
        ensures
            r == next(self, event),
    {
        match self {
            RefreshState::Fatal => (RefreshState::Fatal, RefreshAction::Shutdown),
            RefreshState::Idle => match event {
                RefreshEvent::Tick => (RefreshState::Fetching(0), RefreshAction::Fetch),
                _ => (RefreshState::Idle, RefreshAction::Wait),
            },
            RefreshState::Failed(n) => match event {
                RefreshEvent::Tick => (RefreshState::Fetching(n), RefreshAction::Fetch),
                _ => (RefreshState::Failed(n), RefreshAction::Wait),
            },
            RefreshState::Fetching(n) => match event {
                RefreshEvent::Fetched => (RefreshState::Idle, RefreshAction::Publish),
                RefreshEvent::FetchFailed => if n >= FAILURE_THRESHOLD {
                    (RefreshState::Fatal, RefreshAction::Shutdown)
                } else {
                    (RefreshState::Failed(n + 1), RefreshAction::Wait)
                },
                RefreshEvent::Tick => (RefreshState::Fetching(n), RefreshAction::Wait),
            },
        }
    }

    /// Whether the refresher has stopped for good.
    pub fn is_fatal(&self) -> (r: bool)
        ensures
            r == (*self == RefreshState::Fatal),
    {
        match self {
            RefreshState::Fatal => true,
            _ => false,
        }
    }
}

/// Failures escalate: starting idle, the refresher is fatal after a run of
/// failed rounds exactly when the run is longer than the threshold; up to the
/// threshold it waits, holding the length of the run.
pub proof fn lemma_fatal_after_threshold(rounds: nat)
    ensures
        rounds > FAILURE_THRESHOLD ==> after_failed_rounds(RefreshState::Idle, rounds)
            == RefreshState::Fatal,
        0 < rounds <= FAILURE_THRESHOLD ==> after_failed_rounds(RefreshState::Idle, rounds)
            == RefreshState::Failed(rounds as u32),
    decreases rounds,
{
    if rounds > 0 {
        lemma_fatal_after_threshold((rounds - 1) as nat);
    }
}

/// A successful fetch forgets all earlier failures, and its snapshot is
/// published.
pub proof fn lemma_success_resets(n: u32)
    ensures
        next(RefreshState::Fetching(n), RefreshEvent::Fetched) == (
            RefreshState::Idle,
            RefreshAction::Publish,
        ),
        failures(next(RefreshState::Fetching(n), RefreshEvent::Fetched).0) == 0,
{
}

/// Once fatal, always fatal: every event is answered with a shutdown.
pub proof fn lemma_fatal_is_final(event: RefreshEvent)
    ensures
        next(RefreshState::Fatal, event) == (RefreshState::Fatal, RefreshAction::Shutdown),
{
}

} // verus!
