//! The refresh loop, written as a function from state and event to next state
//! and action.
//!
//! The loop itself waits, talks to the data source and writes to the store; none
//! of that happens here. Whoever runs the loop carries out the [`Action`] it is
//! handed and reports what came of it as the next [`Event`]. Every decision of a
//! refresh is taken in [`RefreshState::step`]: the order of the sub-queries, the
//! zero that stands in for a failed one, the block number that the last
//! sub-query is asked about, and what a failure to open or to close the unit of
//! work leads to.

use vstd::prelude::*;
use crate::status::BlockNumber;
use crate::status::NetworkStatus;

verus! {

/// The time between two ticks of the refresh timer where nothing else is configured, in ms.
pub const DEFAULT_REFRESH_PERIOD_MS: u64 = 30000;

/// A sub-query that gave no value: it failed, or there was no such block.
#[derive(Clone, Copy, Debug, PartialEq, Eq)]
pub struct QueryFailure;

/// The value of a sub-query, with zero standing in where it failed.
pub open spec fn spec_or_zero(answer: Result<u32, QueryFailure>) -> u32 {
    match answer {
        Ok(value) => value,
        Err(_) => 0,
    }
}

/// The fallback that every sub-query gets alike: a failure counts as zero and is no error.
#[verifier::when_used_as_spec(spec_or_zero)]
pub fn or_zero(answer: Result<u32, QueryFailure>) -> (value: u32)
    ensures
        value == spec_or_zero(answer),
{
    match answer {
        Ok(value) => value,
        Err(_) => 0,
    }
}

/// One of the five aggregate queries that the data source answers.
#[derive(Clone, Copy, Debug, PartialEq, Eq)]
pub enum Query {
    /// The number of the last verified (confirmed) block.
    LastVerified,
    /// The number of the last committed block.
    LastCommitted,
    /// The count of all transactions.
    TotalTransactions,
    /// The current size of the mempool.
    MempoolSize,
    /// The count of proofs outstanding since the given block.
    OutstandingProofs(BlockNumber),
}

/// The five counters of one refresh, as far as they are known.
#[derive(Clone, Copy, Debug, PartialEq, Eq)]
pub struct Counters {
    pub last_verified: BlockNumber,
    pub last_committed: BlockNumber,
    pub total_transactions: u32,
    pub mempool_size: u32,
    pub outstanding_txs: u32,
}

impl Counters {
    /// The counters before any sub-query was answered.
    pub open spec fn spec_zero() -> Counters {
        Counters {
            last_verified: BlockNumber(0),
            last_committed: BlockNumber(0),
            total_transactions: 0,
            mempool_size: 0,
            outstanding_txs: 0,
        }
    }

    /// These counters with the value of `asked` set to `value`.
    pub open spec fn spec_with(self, asked: Query, value: u32) -> Counters {
        match asked {
            Query::LastVerified => Counters { last_verified: BlockNumber(value), ..self },
            Query::LastCommitted => Counters { last_committed: BlockNumber(value), ..self },
            Query::TotalTransactions => Counters { total_transactions: value, ..self },
            Query::MempoolSize => Counters { mempool_size: value, ..self },
            Query::OutstandingProofs(_) => Counters { outstanding_txs: value, ..self },
        }
    }

    /// The snapshot that these counters make: the five values, and no deadline.
    pub open spec fn spec_snapshot(self) -> NetworkStatus {
        NetworkStatus {
            next_block_at_max: None,
            last_committed: self.last_committed,
            last_verified: self.last_verified,
            total_transactions: self.total_transactions,
            outstanding_txs: self.outstanding_txs,
            mempool_size: self.mempool_size,
        }
    }

    /// The counters before any sub-query was answered: all zero.
    #[verifier::when_used_as_spec(spec_zero)]
    pub fn zero() -> (counters: Counters)
        ensures
            counters == Counters::spec_zero(),
    {
        Counters {
            last_verified: BlockNumber(0),
            last_committed: BlockNumber(0),
            total_transactions: 0,
            mempool_size: 0,
            outstanding_txs: 0,
        }
    }

    /// Records `value` as what `asked` gave; the other four counters stay.
    #[verifier::when_used_as_spec(spec_with)]
    pub fn with(self, asked: Query, value: u32) -> (counters: Counters)
        ensures
            counters == self.spec_with(asked, value),
    {
        let mut counters = self;
        match asked {
            Query::LastVerified => {
                counters.last_verified = BlockNumber(value);
            },
            Query::LastCommitted => {
                counters.last_committed = BlockNumber(value);
            },
            Query::TotalTransactions => {
                counters.total_transactions = value;
            },
            Query::MempoolSize => {
                counters.mempool_size = value;
            },
            Query::OutstandingProofs(_) => {
                counters.outstanding_txs = value;
            },
        }
        counters
    }

    /// Assembles the snapshot to publish: the five counters, with no deadline.
    #[verifier::when_used_as_spec(spec_snapshot)]
    pub fn snapshot(self) -> (status: NetworkStatus)
        ensures
            status == self.spec_snapshot(),
    {
        NetworkStatus {
            next_block_at_max: None,
            last_committed: self.last_committed,
            last_verified: self.last_verified,
            total_transactions: self.total_transactions,
            outstanding_txs: self.outstanding_txs,
            mempool_size: self.mempool_size,
        }
    }
}

impl Query {
    /// The sub-query that follows this one, given what is `known` once this one
    /// is answered; `None` after the last. The outstanding proofs are asked
    /// about the last verified block as it is then known.
    pub open spec fn spec_successor(self, known: Counters) -> Option<Query> {
        match self {
            Query::LastVerified => Some(Query::LastCommitted),
            Query::LastCommitted => Some(Query::TotalTransactions),
            Query::TotalTransactions => Some(Query::MempoolSize),
            Query::MempoolSize => Some(Query::OutstandingProofs(known.last_verified)),
            Query::OutstandingProofs(_) => None,
        }
    }

    /// The sub-query to make once this one is answered, or `None` after the last.
    #[verifier::when_used_as_spec(spec_successor)]
    pub fn successor(self, known: Counters) -> (next: Option<Query>)
        ensures
            next == self.spec_successor(known),
    {
        match self {
            Query::LastVerified => Some(Query::LastCommitted),
            Query::LastCommitted => Some(Query::TotalTransactions),
            Query::TotalTransactions => Some(Query::MempoolSize),
            Query::MempoolSize => Some(Query::OutstandingProofs(known.last_verified)),
            Query::OutstandingProofs(_) => None,
        }
    }
}

/// Where a fetch stands while the unit of work is in use.
#[derive(Clone, Copy, Debug, PartialEq, Eq)]
pub enum FetchStep {
    /// The unit of work is being opened.
    Opening,
    /// The sub-query `asked` is in flight; `gathered` holds what the earlier ones gave.
    Asking { asked: Query, gathered: Counters },
    /// All five sub-queries are answered and the unit of work is being closed.
    Closing { gathered: Counters },
}

/// The state of the refresh loop. There is no error state: a failure is
/// reported and the loop is idle again.
#[derive(Clone, Copy, Debug, PartialEq, Eq)]
pub enum RefreshState {
    /// Waiting for the next tick of the timer.
    Idle,
    /// A fetch is under way.
    Fetching(FetchStep),
    /// The snapshot is assembled and on its way into the store.
    Publishing(NetworkStatus),
    /// The loop was shut down and does nothing more.
    Stopped,
}

/// What happened outside, as reported by whoever runs the loop.
#[derive(Clone, Copy, Debug, PartialEq, Eq)]
pub enum Event {
    /// The timer fired.
    Tick,
    /// The unit of work is open.
    Opened,
    /// The unit of work could not be opened.
    OpenFailed,
    /// The data source answered the sub-query in flight, or failed to.
    Answered(Result<u32, QueryFailure>),
    /// The unit of work was closed; `false` where closing it failed.
    Closed(bool),
    /// The store holds the snapshot that was to be published.
    Published,
    /// The process is shutting down.
    Shutdown,
}

/// What whoever runs the loop is to do next.
#[derive(Clone, Copy, Debug, PartialEq, Eq)]
pub enum Action {
    /// Wait for the timer's next tick.
    AwaitTick,
    /// Open a unit of work against the data source.
    Open,
    /// Put this sub-query to the data source.
    Ask(Query),
    /// Close the unit of work.
    Close,
    /// Replace the store's snapshot by this one.
    Publish(NetworkStatus),
    /// Record that this refresh failed, keep running, and wait for the next tick.
    ReportFailure,
    /// Stop: the loop has ended.
    Halt,
}

impl RefreshState {
    /// The action that this state waits on the outcome of.
    pub open spec fn spec_pending(self) -> Action {
        match self {
            RefreshState::Idle => Action::AwaitTick,
            RefreshState::Fetching(FetchStep::Opening) => Action::Open,
            RefreshState::Fetching(FetchStep::Asking { asked, .. }) => Action::Ask(asked),
            RefreshState::Fetching(FetchStep::Closing { .. }) => Action::Close,
            RefreshState::Publishing(snapshot) => Action::Publish(snapshot),
            RefreshState::Stopped => Action::Halt,
        }
    }

    /// The state in which `asked` is in flight, and the action that puts it.
    pub open spec fn asking(asked: Query, gathered: Counters) -> (RefreshState, Action) {
        (RefreshState::Fetching(FetchStep::Asking { asked, gathered }), Action::Ask(asked))
    }

    /// The transition of the refresh loop.
    ///
    /// - A shutdown stops the loop from any state, and a stopped loop stays stopped.
    /// - A tick starts a fetch from the idle state, by opening a unit of work.
    /// - If the unit of work fails to open, the failure is reported and the loop
    ///   is idle again; nothing is published.
    /// - Once it is open the five sub-queries are put one after the other. Each
    ///   answer is recorded with zero standing in for a failure, so that no
    ///   failed sub-query keeps the others from being put or the snapshot from
    ///   being published.
    /// - After the last answer the unit of work is closed, and whether or not
    ///   closing succeeds the assembled snapshot is published.
    /// - After the store has taken the snapshot the loop is idle again.
    /// - An event that the state does not wait for changes nothing: the state
    ///   stays and its pending action is handed out again. So a tick during a
    ///   fetch starts no second fetch.
    pub open spec fn spec_step(self, event: Event) -> (RefreshState, Action) {
        if self == RefreshState::Stopped || event == Event::Shutdown {
            (RefreshState::Stopped, Action::Halt)
        } else {
            match (self, event) {
                (RefreshState::Idle, Event::Tick) => (
                    RefreshState::Fetching(FetchStep::Opening),
                    Action::Open,
                ),
                (RefreshState::Fetching(FetchStep::Opening), Event::Opened) => Self::asking(
                    Query::LastVerified,
                    Counters::spec_zero(),
                ),
                (RefreshState::Fetching(FetchStep::Opening), Event::OpenFailed) => (
                    RefreshState::Idle,
                    Action::ReportFailure,
                ),
                (
                    RefreshState::Fetching(FetchStep::Asking { asked, gathered }),
                    Event::Answered(answer),
                ) => {
                    let known = gathered.spec_with(asked, spec_or_zero(answer));
                    match asked.spec_successor(known) {
                        Some(next) => Self::asking(next, known),
                        None => (
                            RefreshState::Fetching(FetchStep::Closing { gathered: known }),
                            Action::Close,
                        ),
                    }
                },
                (RefreshState::Fetching(FetchStep::Closing { gathered }), Event::Closed(_)) => (
                    RefreshState::Publishing(gathered.spec_snapshot()),
                    Action::Publish(gathered.spec_snapshot()),
                ),
                (RefreshState::Publishing(_), Event::Published) => (
                    RefreshState::Idle,
                    Action::AwaitTick,
                ),
                _ => (self, self.spec_pending()),
            }
        }
    }

    /// The state of a loop that has not started yet: idle.
    pub fn new() -> (state: RefreshState)
        ensures
            state == RefreshState::Idle,
    {
        RefreshState::Idle
    }

    /// The action that this state waits on the outcome of: what to do first,
    /// and what to do again after an event that was not waited for.
    #[verifier::when_used_as_spec(spec_pending)]
    pub fn pending(self) -> (action: Action)
        ensures
            action == self.spec_pending(),
    {
        match self {
            RefreshState::Idle => Action::AwaitTick,
            RefreshState::Fetching(step) => match step {
                FetchStep::Opening => Action::Open,
                FetchStep::Asking { asked, .. } => Action::Ask(asked),
                FetchStep::Closing { .. } => Action::Close,
            },
            RefreshState::Publishing(snapshot) => Action::Publish(snapshot),
            RefreshState::Stopped => Action::Halt,
        }
    }

    /// Takes the loop one step on: from this state and `event` to the next
    /// state and the action to carry out, as [`RefreshState::spec_step`] says.
    #[verifier::when_used_as_spec(spec_step)]
    pub fn step(self, event: Event) -> (next: (RefreshState, Action))
        ensures
            next == self.spec_step(event),
    {
        match self {
            RefreshState::Stopped => (RefreshState::Stopped, Action::Halt),
            RefreshState::Idle => match event {
                Event::Shutdown => (RefreshState::Stopped, Action::Halt),
                Event::Tick => (RefreshState::Fetching(FetchStep::Opening), Action::Open),
                _ => (self, Action::AwaitTick),
            },
            RefreshState::Fetching(FetchStep::Opening) => match event {
                Event::Shutdown => (RefreshState::Stopped, Action::Halt),
                Event::Opened => {
                    let asked = Query::LastVerified;
                    let gathered = Counters::zero();
                    (RefreshState::Fetching(FetchStep::Asking { asked, gathered }), Action::Ask(asked))
                },
                Event::OpenFailed => (RefreshState::Idle, Action::ReportFailure),
                _ => (self, Action::Open),
            },
            RefreshState::Fetching(FetchStep::Asking { asked, gathered }) => match event {
                Event::Shutdown => (RefreshState::Stopped, Action::Halt),
                Event::Answered(answer) => {
                    let known = gathered.with(asked, or_zero(answer));
                    match asked.successor(known) {
                        Some(next) => (
                            RefreshState::Fetching(FetchStep::Asking { asked: next, gathered: known }),
                            Action::Ask(next),
                        ),
                        None => (
                            RefreshState::Fetching(FetchStep::Closing { gathered: known }),
                            Action::Close,
                        ),
                    }
                },
                _ => (self, Action::Ask(asked)),
            },
            RefreshState::Fetching(FetchStep::Closing { gathered }) => match event {
                Event::Shutdown => (RefreshState::Stopped, Action::Halt),
                Event::Closed(_) => {
                    let snapshot = gathered.snapshot();
                    (RefreshState::Publishing(snapshot), Action::Publish(snapshot))
                },
                _ => (self, Action::Close),
            },
            RefreshState::Publishing(snapshot) => match event {
                Event::Shutdown => (RefreshState::Stopped, Action::Halt),
                Event::Published => (RefreshState::Idle, Action::AwaitTick),
                _ => (self, Action::Publish(snapshot)),
            },
        }
    }
}

} // verus!
