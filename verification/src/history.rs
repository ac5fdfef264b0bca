//! Histories: what a store holds, and what its readers see, over a run of calls.
//!
//! The store is only ever used under a lock, so its calls happen one after
//! another. This module states what holds of every such sequence of calls.

use vstd::prelude::*;
use crate::refresh::spec_or_zero;
use crate::refresh::Action;
use crate::refresh::Event;
use crate::refresh::FetchStep;
use crate::refresh::Query;
use crate::refresh::QueryFailure;
use crate::refresh::RefreshState;
use crate::status::BlockNumber;
use crate::status::NetworkStatus;

verus! {

/// One call on the store.
pub enum StoreOp {
    /// A call of `read`.
    Read,
    /// A call of `replace` with this snapshot.
    Replace(NetworkStatus),
}

/// The snapshot that a store holds after the calls `ops`, having held `start`
/// before them: `read` leaves it as it is, `replace` puts its argument in.
pub open spec fn held_after(start: NetworkStatus, ops: Seq<StoreOp>) -> NetworkStatus
    decreases ops.len(),
{
    if ops.len() == 0 {
        start
    } else {
        match ops.last() {
            StoreOp::Read => held_after(start, ops.drop_last()),
            StoreOp::Replace(new) => new,
        }
    }
}

/// What a `read` returns that is made after the first `at` calls of `ops`.
pub open spec fn seen_at(start: NetworkStatus, ops: Seq<StoreOp>, at: int) -> NetworkStatus {
    held_after(start, ops.take(at))
}

/// A read returns one whole snapshot, never a mix of two: the argument of the
/// latest `replace` before it, or, where no `replace` came before it, the
/// snapshot that the store held at first.
pub proof fn lemma_read_sees_latest_replace(start: NetworkStatus, ops: Seq<StoreOp>, at: int)
    requires
        0 <= at <= ops.len(),
    ensures
        (forall|i: int| 0 <= i < at ==> ops[i] is Read) ==> seen_at(start, ops, at) == start,
        forall|i: int|
            0 <= i < at && ops[i] is Replace && (forall|j: int| i < j < at ==> ops[j] is Read)
                ==> ops[i] == StoreOp::Replace(seen_at(start, ops, at)),
        seen_at(start, ops, at) == start || exists|i: int|
            0 <= i < at && ops[i] == StoreOp::Replace(seen_at(start, ops, at)),
    decreases at,
{
    let before = ops.take(at);
    if at > 0 {
        assert(before.last() == ops[at - 1]);
        assert(before.drop_last() =~= ops.take(at - 1));
        lemma_read_sees_latest_replace(start, ops, at - 1);
        match ops[at - 1] {
            StoreOp::Read => {
                assert forall|i: int|
                    0 <= i < at && ops[i] is Replace && (forall|j: int|
                        i < j < at ==> ops[j] is Read) implies ops[i] == StoreOp::Replace(
                    seen_at(start, ops, at),
                ) by {
                    assert(i < at - 1);
                    assert(forall|j: int| i < j < at - 1 ==> ops[j] is Read);
                }
            },
            StoreOp::Replace(new) => {
                assert(seen_at(start, ops, at) == new);
            },
        }
    }
}

/// Before any `replace`, a read of a new store returns the zero snapshot: both
/// block numbers and all three counters zero, and no deadline.
pub proof fn lemma_unrefreshed_store_reads_zero(ops: Seq<StoreOp>, at: int)
    requires
        0 <= at <= ops.len(),
        forall|i: int| 0 <= i < at ==> ops[i] is Read,
    ensures
        seen_at(NetworkStatus::zero(), ops, at) == NetworkStatus::zero(),
        NetworkStatus::zero().next_block_at_max is None,
        NetworkStatus::zero().last_committed == BlockNumber(0),
        NetworkStatus::zero().last_verified == BlockNumber(0),
        NetworkStatus::zero().total_transactions == 0,
        NetworkStatus::zero().outstanding_txs == 0,
        NetworkStatus::zero().mempool_size == 0,
{
    lemma_read_sees_latest_replace(NetworkStatus::zero(), ops, at);
}

/// The state that the refresh loop reaches from `state` over `events`, and the
/// actions that it hands out on the way, one for each event.
pub open spec fn run(state: RefreshState, events: Seq<Event>) -> (RefreshState, Seq<Action>)
    decreases events.len(),
{
    if events.len() == 0 {
        (state, Seq::empty())
    } else {
        let (reached, actions) = run(state, events.drop_last());
        let (next, action) = reached.spec_step(events.last());
        (next, actions.push(action))
    }
}

/// The calls on the store that carrying out `actions` makes: a `replace` for
/// each `Publish`, in their order, and nothing for any other action.
pub open spec fn store_calls(actions: Seq<Action>) -> Seq<StoreOp>
    decreases actions.len(),
{
    if actions.len() == 0 {
        Seq::empty()
    } else {
        let earlier = store_calls(actions.drop_last());
        match actions.last() {
            Action::Publish(snapshot) => earlier.push(StoreOp::Replace(snapshot)),
            _ => earlier,
        }
    }
}

/// What the data source answers to the five sub-queries of one refresh.
pub struct Answers {
    pub last_verified: Result<u32, QueryFailure>,
    pub last_committed: Result<u32, QueryFailure>,
    pub total_transactions: Result<u32, QueryFailure>,
    pub mempool_size: Result<u32, QueryFailure>,
    pub outstanding_txs: Result<u32, QueryFailure>,
}

impl Answers {
    /// The snapshot that these answers amount to: each value where the
    /// sub-query gave one, zero where it failed, and no deadline.
    pub open spec fn snapshot(self) -> NetworkStatus {
        NetworkStatus {
            next_block_at_max: None,
            last_committed: BlockNumber(spec_or_zero(self.last_committed)),
            last_verified: BlockNumber(spec_or_zero(self.last_verified)),
            total_transactions: spec_or_zero(self.total_transactions),
            outstanding_txs: spec_or_zero(self.outstanding_txs),
            mempool_size: spec_or_zero(self.mempool_size),
        }
    }

    /// The events of one whole refresh that gets these answers: the tick, the
    /// unit of work opened, the five answers, the unit of work closed (well or
    /// not, as `closed` says), and the snapshot stored.
    pub open spec fn events(self, closed: bool) -> Seq<Event> {
        seq![
            Event::Tick,
            Event::Opened,
            Event::Answered(self.last_verified),
            Event::Answered(self.last_committed),
            Event::Answered(self.total_transactions),
            Event::Answered(self.mempool_size),
            Event::Answered(self.outstanding_txs),
            Event::Closed(closed),
            Event::Published,
        ]
    }

    /// The actions of one whole refresh that gets these answers.
    pub open spec fn actions(self) -> Seq<Action> {
        seq![
            Action::Open,
            Action::Ask(Query::LastVerified),
            Action::Ask(Query::LastCommitted),
            Action::Ask(Query::TotalTransactions),
            Action::Ask(Query::MempoolSize),
            Action::Ask(Query::OutstandingProofs(BlockNumber(spec_or_zero(self.last_verified)))),
            Action::Close,
            Action::Publish(self.snapshot()),
            Action::AwaitTick,
        ]
    }
}

/// `run` over the first `upto` events is `run` over one event less, and then one step.
proof fn lemma_run_unfolds(state: RefreshState, events: Seq<Event>, upto: int)
    requires
        0 < upto <= events.len(),
    ensures
        run(state, events.take(upto)) == ({
            let (reached, actions) = run(state, events.take(upto - 1));
            let (next, action) = reached.spec_step(events[upto - 1]);
            (next, actions.push(action))
        }),
{
    assert(events.take(upto).drop_last() =~= events.take(upto - 1));
}

/// `store_calls` over the first `upto` actions is `store_calls` over one action
/// less, and then the call of that action.
proof fn lemma_store_calls_unfolds(actions: Seq<Action>, upto: int)
    requires
        0 < upto <= actions.len(),
    ensures
        store_calls(actions.take(upto)) == ({
            let earlier = store_calls(actions.take(upto - 1));
            match actions[upto - 1] {
                Action::Publish(snapshot) => earlier.push(StoreOp::Replace(snapshot)),
                _ => earlier,
            }
        }),
{
    assert(actions.take(upto).drop_last() =~= actions.take(upto - 1));
}

/// A refresh publishes what the data source answered, whatever failed among
/// the five sub-queries and whether or not the unit of work closed well.
///
/// From the idle state the loop opens a unit of work, puts the five
/// sub-queries (the last of them about the last verified block, or about block
/// zero where that sub-query failed), closes the unit of work, publishes, and
/// is idle again. The one call that the store gets is a `replace` with the
/// snapshot of the answers: a failed sub-query leaves zero in its own field and
/// the other fields as they were answered.
pub proof fn lemma_refresh_publishes_answers(answers: Answers, closed: bool)
    ensures
        run(RefreshState::Idle, answers.events(closed)) == (RefreshState::Idle, answers.actions()),
        store_calls(answers.actions()) == seq![StoreOp::Replace(answers.snapshot())],
{
    let events = answers.events(closed);
    let actions = answers.actions();
    assert(run(RefreshState::Idle, events.take(0)) == (RefreshState::Idle, Seq::<Action>::empty()));
    lemma_run_unfolds(RefreshState::Idle, events, 1);
    lemma_run_unfolds(RefreshState::Idle, events, 2);
    lemma_run_unfolds(RefreshState::Idle, events, 3);
    lemma_run_unfolds(RefreshState::Idle, events, 4);
    lemma_run_unfolds(RefreshState::Idle, events, 5);
    lemma_run_unfolds(RefreshState::Idle, events, 6);
    lemma_run_unfolds(RefreshState::Idle, events, 7);
    lemma_run_unfolds(RefreshState::Idle, events, 8);
    lemma_run_unfolds(RefreshState::Idle, events, 9);
    assert(events.take(9) =~= events);
    assert(run(RefreshState::Idle, events).1 =~= actions);

    assert(store_calls(actions.take(0)) == Seq::<StoreOp>::empty());
    lemma_store_calls_unfolds(actions, 1);
    lemma_store_calls_unfolds(actions, 2);
    lemma_store_calls_unfolds(actions, 3);
    lemma_store_calls_unfolds(actions, 4);
    lemma_store_calls_unfolds(actions, 5);
    lemma_store_calls_unfolds(actions, 6);
    lemma_store_calls_unfolds(actions, 7);
    lemma_store_calls_unfolds(actions, 8);
    lemma_store_calls_unfolds(actions, 9);
    assert(actions.take(9) =~= actions);
    assert(store_calls(actions) =~= seq![StoreOp::Replace(answers.snapshot())]);
}

/// Where the unit of work fails to open, the refresh is reported as failed and
/// nothing is published: the loop is idle again, the store gets no call, and
/// it holds after the attempt what it held before.
pub proof fn lemma_failed_open_keeps_store(held: NetworkStatus)
    ensures
        run(RefreshState::Idle, seq![Event::Tick, Event::OpenFailed]) == (
            RefreshState::Idle,
            seq![Action::Open, Action::ReportFailure],
        ),
        store_calls(seq![Action::Open, Action::ReportFailure]) == Seq::<StoreOp>::empty(),
        held_after(held, store_calls(seq![Action::Open, Action::ReportFailure])) == held,
{
    let events = seq![Event::Tick, Event::OpenFailed];
    let actions = seq![Action::Open, Action::ReportFailure];
    assert(run(RefreshState::Idle, events.take(0)) == (RefreshState::Idle, Seq::<Action>::empty()));
    lemma_run_unfolds(RefreshState::Idle, events, 1);
    lemma_run_unfolds(RefreshState::Idle, events, 2);
    assert(events.take(2) =~= events);
    assert(run(RefreshState::Idle, events).1 =~= actions);

    assert(store_calls(actions.take(0)) == Seq::<StoreOp>::empty());
    lemma_store_calls_unfolds(actions, 1);
    lemma_store_calls_unfolds(actions, 2);
    assert(actions.take(2) =~= actions);
}

/// A run over two stretches of events is the run over the first and, from the
/// state reached there, the run over the second.
pub proof fn lemma_run_continues(state: RefreshState, first: Seq<Event>, second: Seq<Event>)
    ensures
        run(state, first + second) == ({
            let (reached, actions) = run(state, first);
            let (end, more) = run(reached, second);
            (end, actions + more)
        }),
    decreases second.len(),
{
    let (reached, actions) = run(state, first);
    if second.len() == 0 {
        assert(first + second =~= first);
        assert(actions + Seq::<Action>::empty() =~= actions);
    } else {
        assert((first + second).drop_last() =~= first + second.drop_last());
        lemma_run_continues(state, first, second.drop_last());
        let (before, more) = run(reached, second.drop_last());
        let (end, action) = before.spec_step(second.last());
        assert((actions + more).push(action) =~= actions + more.push(action));
    }
}

/// The store calls of two stretches of actions are those of the first, then
/// those of the second.
pub proof fn lemma_store_calls_continue(first: Seq<Action>, second: Seq<Action>)
    ensures
        store_calls(first + second) == store_calls(first) + store_calls(second),
    decreases second.len(),
{
    if second.len() == 0 {
        assert(first + second =~= first);
        assert(store_calls(first) + Seq::<StoreOp>::empty() =~= store_calls(first));
    } else {
        assert((first + second).drop_last() =~= first + second.drop_last());
        lemma_store_calls_continue(first, second.drop_last());
        let earlier = store_calls(second.drop_last());
        match second.last() {
            Action::Publish(snapshot) => {
                assert((store_calls(first) + earlier).push(StoreOp::Replace(snapshot))
                    =~= store_calls(first) + earlier.push(StoreOp::Replace(snapshot)));
            },
            _ => {},
        }
    }
}

/// Two refreshes one after the other publish two snapshots, each whole and in
/// the order of the refreshes: the store gets a `replace` with the snapshot of
/// the first answers, then one with the snapshot of the second, and no other
/// call.
pub proof fn lemma_consecutive_refreshes_publish_in_order(
    first: Answers,
    closed_first: bool,
    second: Answers,
    closed_second: bool,
)
    ensures
        run(RefreshState::Idle, first.events(closed_first) + second.events(closed_second)) == (
            RefreshState::Idle,
            first.actions() + second.actions(),
        ),
        store_calls(first.actions() + second.actions()) == seq![
            StoreOp::Replace(first.snapshot()),
            StoreOp::Replace(second.snapshot()),
        ],
{
    lemma_refresh_publishes_answers(first, closed_first);
    lemma_refresh_publishes_answers(second, closed_second);
    lemma_run_continues(
        RefreshState::Idle,
        first.events(closed_first),
        second.events(closed_second),
    );
    lemma_store_calls_continue(first.actions(), second.actions());
    assert(seq![StoreOp::Replace(first.snapshot())] + seq![StoreOp::Replace(second.snapshot())]
        =~= seq![StoreOp::Replace(first.snapshot()), StoreOp::Replace(second.snapshot())]);
}

/// Reads around two writes see nothing in between. In a history whose only
/// writes are a `replace` with `one` and a later `replace` with `two`, a read
/// before both returns the first snapshot, a read between them returns `one`,
/// and a read after both returns `two`, however many reads there are.
pub proof fn lemma_reads_around_two_replaces(
    start: NetworkStatus,
    ops: Seq<StoreOp>,
    one: NetworkStatus,
    one_at: int,
    two: NetworkStatus,
    two_at: int,
    at: int,
)
    requires
        0 <= one_at < two_at < ops.len(),
        0 <= at <= ops.len(),
        ops[one_at] == StoreOp::Replace(one),
        ops[two_at] == StoreOp::Replace(two),
        forall|i: int| 0 <= i < ops.len() && i != one_at && i != two_at ==> ops[i] is Read,
    ensures
        at <= one_at ==> seen_at(start, ops, at) == start,
        one_at < at <= two_at ==> seen_at(start, ops, at) == one,
        two_at < at ==> seen_at(start, ops, at) == two,
{
    lemma_read_sees_latest_replace(start, ops, at);
    if one_at < at <= two_at {
        assert(forall|j: int| one_at < j < at ==> ops[j] is Read);
    }
    if two_at < at {
        assert(forall|j: int| two_at < j < at ==> ops[j] is Read);
    }
}

/// The committed height that readers see does not go down from one refresh to
/// the next where the source's does not, as long as the later sub-query gives a
/// value. (Where it fails, the later snapshot carries zero: that case is left
/// out unless the earlier snapshot carried zero too.)
pub proof fn lemma_committed_height_does_not_drop(first: Answers, second: Answers)
    requires
        first.last_committed is Ok && second.last_committed is Ok
            ==> first.last_committed->Ok_0 <= second.last_committed->Ok_0,
        second.last_committed is Err ==> spec_or_zero(first.last_committed) == 0,
    ensures
        first.snapshot().last_committed.0 <= second.snapshot().last_committed.0,
{
}

/// Whether a state can publish nothing but a snapshot without a deadline.
pub open spec fn publishes_no_deadline(state: RefreshState) -> bool {
    state matches RefreshState::Publishing(snapshot) ==> snapshot.next_block_at_max is None
}

/// No refresh ever publishes a deadline: whatever events reach the loop, from
/// the idle state on, every snapshot that it hands out to be published has
/// `next_block_at_max` absent.
pub proof fn lemma_published_snapshots_carry_no_deadline(events: Seq<Event>)
    ensures
        run(RefreshState::Idle, events).1.len() == events.len(),
        publishes_no_deadline(run(RefreshState::Idle, events).0),
        forall|i: int|
            0 <= i < events.len() ==> (#[trigger] run(RefreshState::Idle, events).1[i]
                matches Action::Publish(snapshot) ==> snapshot.next_block_at_max is None),
    decreases events.len(),
{
    if events.len() > 0 {
        lemma_published_snapshots_carry_no_deadline(events.drop_last());
    }
}

/// A stopped loop stays stopped: whatever events reach it, it hands out
/// nothing but `Halt`.
pub proof fn lemma_stopped_is_final(events: Seq<Event>)
    ensures
        run(RefreshState::Stopped, events).0 == RefreshState::Stopped,
        run(RefreshState::Stopped, events).1.len() == events.len(),
        forall|i: int|
            0 <= i < events.len() ==> #[trigger] run(RefreshState::Stopped, events).1[i]
                == Action::Halt,
        store_calls(run(RefreshState::Stopped, events).1) == Seq::<StoreOp>::empty(),
    decreases events.len(),
{
    if events.len() > 0 {
        lemma_stopped_is_final(events.drop_last());
        let earlier = run(RefreshState::Stopped, events.drop_last()).1;
        assert(earlier.push(Action::Halt).drop_last() =~= earlier);
    }
}

/// A shutdown stops the loop wherever it stands, and no other event does.
pub proof fn lemma_only_shutdown_stops(state: RefreshState, event: Event)
    requires
        state != RefreshState::Stopped,
    ensures
        state.spec_step(event).0 == RefreshState::Stopped <==> event == Event::Shutdown,
{
}

/// Fetches do not overlap: a tick that comes while a refresh is under way
/// changes nothing, and the action in flight is handed out again.
pub proof fn lemma_tick_during_refresh_starts_nothing(state: RefreshState)
    requires
        state is Fetching || state is Publishing,
    ensures
        state.spec_step(Event::Tick) == (state, state.spec_pending()),
{
}

} // verus!
