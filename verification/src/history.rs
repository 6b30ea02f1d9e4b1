//! What holds of a query's state: after any run of endpoint changes and fetch
//! outcomes, in whatever order the outcomes arrive, and after each kind of
//! reply.

use crate::json::Json;
use crate::query::{QueryState, QueryView};
use crate::response::{
    is_success, result_field, Extraction, FetchError, FetchReply, RpcValueView,
};
use vstd::prelude::*;

verus! {

/// One thing that happens to a query.
pub ghost enum QueryEvent<T> {
    /// A fetch was issued: the query was subscribed, or the endpoint changed.
    Issued,
    /// The fetch of this generation ended with this outcome.
    Resolved(u64, Result<Option<T>, FetchError>),
}

impl<T> QueryEvent<T> {
    /// Whether the event is the end of the fetch of `generation`.
    pub open spec fn resolves(self, generation: u64) -> bool {
        self matches QueryEvent::Resolved(ended, _) && ended == generation
    }
}

/// Whether every event of a history is the end of a fetch.
pub open spec fn only_outcomes<T>(events: Seq<QueryEvent<T>>) -> bool {
    forall|i: int| 0 <= i < events.len() ==> (#[trigger] events[i]) is Resolved
}

/// A history of `count` fetches issued in a row, none of them answered.
pub open spec fn issues<T>(count: nat) -> Seq<QueryEvent<T>> {
    Seq::new(count, |i: int| QueryEvent::Issued)
}

impl<T> QueryState<T> {
    /// The state after one event.
    pub open spec fn after(self, event: QueryEvent<T>) -> Self {
        match event {
            QueryEvent::Issued => self.issued(),
            QueryEvent::Resolved(generation, outcome) => self.settled(generation, outcome),
        }
    }

    /// The state after a history of events, the earliest first.
    pub open spec fn replay(self, events: Seq<QueryEvent<T>>) -> Self
        decreases events.len(),
    {
        if events.len() == 0 {
            self
        } else {
            self.replay(events.drop_last()).after(events.last())
        }
    }
}

/// Replaying two histories one after the other is replaying them joined.
pub proof fn lemma_replay_joined<T>(
    start: QueryState<T>,
    earlier: Seq<QueryEvent<T>>,
    later: Seq<QueryEvent<T>>,
)
    ensures
        start.replay(earlier + later) == start.replay(earlier).replay(later),
    decreases later.len(),
{
    if later.len() == 0 {
        assert(earlier + later =~= earlier);
    } else {
        lemma_replay_joined(start, earlier, later.drop_last());
        assert((earlier + later).drop_last() =~= earlier + later.drop_last());
        assert((earlier + later).last() == later.last());
    }
}

/// Fetches issued in a row leave the query loading the last of them, and the
/// generations count up by one from the first that was free.
pub proof fn lemma_issues_in_a_row<T>(start: QueryState<T>, count: nat)
    requires
        count > 0,
        start.next_generation() + count - 1 <= u64::MAX,
    ensures
        start.replay(issues::<T>(count)) == QueryState::<T>::Loading(
            (start.next_generation() + count - 1) as u64,
        ),
    decreases count,
{
    let events = issues::<T>(count);
    assert(events.drop_last() =~= issues::<T>((count - 1) as nat));
    assert(events.last() == QueryEvent::<T>::Issued);
    if count == 1 {
        assert(start.replay(events.drop_last()) == start);
    } else {
        lemma_issues_in_a_row(start, (count - 1) as nat);
    }
}

/// While only outcomes arrive, a query is loading at the end exactly if it was
/// loading at the start and none of the outcomes is that of the fetch it
/// waits for; and then nothing about it has changed.
pub proof fn lemma_loading_until_resolved<T>(start: QueryState<T>, outcomes: Seq<QueryEvent<T>>)
    requires
        only_outcomes(outcomes),
    ensures
        start.replay(outcomes).is_loading() <==> start.is_loading() && forall|i: int|
            0 <= i < outcomes.len() ==> !(#[trigger] outcomes[i]).resolves(
                start.generation().unwrap(),
            ),
        start.replay(outcomes).is_loading() ==> start.replay(outcomes) == start,
        !start.is_loading() ==> start.replay(outcomes) == start,
    decreases outcomes.len(),
{
    if outcomes.len() > 0 {
        let before = outcomes.drop_last();
        assert forall|i: int| 0 <= i < before.len() implies (#[trigger] before[i]) is Resolved by {
            assert(before[i] == outcomes[i]);
        }
        lemma_loading_until_resolved(start, before);
        assert(outcomes.last() == outcomes[outcomes.len() - 1]);
        if start.is_loading() {
            let waited: u64 = start.generation().unwrap();
            if start.replay(outcomes).is_loading() {
                assert forall|i: int| 0 <= i < outcomes.len() implies !(
                #[trigger] outcomes[i]).resolves(waited) by {
                    if i < before.len() {
                        assert(before[i] == outcomes[i]);
                    }
                }
            }
            if forall|i: int|
                0 <= i < outcomes.len() ==> !(#[trigger] outcomes[i]).resolves(waited) {
                assert forall|i: int| 0 <= i < before.len() implies !(
                #[trigger] before[i]).resolves(waited) by {
                    assert(before[i] == outcomes[i]);
                }
            }
        }
    }
}

/// While only outcomes arrive, a loading query ends as the first outcome of
/// the fetch it waits for leaves it.
pub proof fn lemma_first_outcome_settles<T>(
    start: QueryState<T>,
    outcomes: Seq<QueryEvent<T>>,
    first: int,
)
    requires
        only_outcomes(outcomes),
        start.is_loading(),
        0 <= first < outcomes.len(),
        outcomes[first].resolves(start.generation().unwrap()),
        forall|i: int|
            0 <= i < first ==> !(#[trigger] outcomes[i]).resolves(start.generation().unwrap()),
    ensures
        start.replay(outcomes) == start.after(outcomes[first]),
        !start.replay(outcomes).is_loading(),
    decreases outcomes.len(),
{
    let before = outcomes.drop_last();
    assert forall|i: int| 0 <= i < before.len() implies (#[trigger] before[i]) is Resolved by {
        assert(before[i] == outcomes[i]);
    }
    assert(outcomes.last() == outcomes[outcomes.len() - 1]);
    if first == outcomes.len() - 1 {
        assert forall|i: int| 0 <= i < before.len() implies !(#[trigger] before[i]).resolves(
            start.generation().unwrap(),
        ) by {
            assert(before[i] == outcomes[i]);
        }
        lemma_loading_until_resolved(start, before);
    } else {
        assert(before[first] == outcomes[first]);
        assert forall|i: int| 0 <= i < first implies !(#[trigger] before[i]).resolves(
            start.generation().unwrap(),
        ) by {
            assert(before[i] == outcomes[i]);
        }
        lemma_first_outcome_settles(start, before, first);
    }
}

/// Single current result. After any number of fetches issued in a row, with
/// no answer in between, let the outcomes arrive in any order, that of the
/// latest fetch among them once. The query then stands as the outcome of the
/// latest fetch alone leaves it: ready with its value, or failed, under its
/// generation. No outcome of an earlier fetch shows, wherever it stood in the
/// order.
pub proof fn lemma_latest_fetch_wins<T>(
    start: QueryState<T>,
    fetches: nat,
    outcomes: Seq<QueryEvent<T>>,
    latest: int,
)
    requires
        fetches > 0,
        start.next_generation() + fetches - 1 <= u64::MAX,
        only_outcomes(outcomes),
        0 <= latest < outcomes.len(),
        forall|i: int|
            0 <= i < outcomes.len() ==> ((#[trigger] outcomes[i]).resolves(
                (start.next_generation() + fetches - 1) as u64,
            ) <==> i == latest),
    ensures
        start.replay(issues::<T>(fetches) + outcomes) == QueryState::<T>::Loading(
            (start.next_generation() + fetches - 1) as u64,
        ).after(outcomes[latest]),
        start.replay(issues::<T>(fetches) + outcomes).generation() == Some(
            (start.next_generation() + fetches - 1) as u64,
        ),
        !start.replay(issues::<T>(fetches) + outcomes).is_loading(),
{
    lemma_issues_in_a_row(start, fetches);
    lemma_replay_joined(start, issues::<T>(fetches), outcomes);
    lemma_first_outcome_settles(start.replay(issues::<T>(fetches)), outcomes, latest);
}

/// Loading visibility. Take any history and the last fetch issued in it, at
/// the position `issue`. At the end of the history the query is loading
/// exactly if no outcome of that fetch has arrived since: it loads from the
/// moment the fetch is issued until its outcome, a value or a failure, is
/// applied, and at no other time.
pub proof fn lemma_loading_visibility<T>(
    start: QueryState<T>,
    events: Seq<QueryEvent<T>>,
    issue: int,
)
    requires
        0 <= issue < events.len(),
        events[issue] is Issued,
        forall|i: int| issue < i < events.len() ==> (#[trigger] events[i]) is Resolved,
    ensures
        start.replay(events.take(issue + 1)).is_loading(),
        start.replay(events).is_loading() <==> forall|i: int|
            issue < i < events.len() ==> !(#[trigger] events[i]).resolves(
                start.replay(events.take(issue + 1)).generation().unwrap(),
            ),
{
    let upto = events.take(issue + 1);
    let since = events.skip(issue + 1);
    let issued = start.replay(upto);
    assert(upto.last() == events[issue]);
    assert(events =~= upto + since);
    lemma_replay_joined(start, upto, since);
    assert forall|i: int| 0 <= i < since.len() implies (#[trigger] since[i]) is Resolved by {
        assert(since[i] == events[issue + 1 + i]);
    }
    lemma_loading_until_resolved(issued, since);
    let waited: u64 = issued.generation().unwrap();
    if start.replay(events).is_loading() {
        assert forall|i: int| issue < i < events.len() implies !(#[trigger] events[i]).resolves(
            waited,
        ) by {
            assert(since[i - issue - 1] == events[i]);
        }
    }
    if forall|i: int| issue < i < events.len() ==> !(#[trigger] events[i]).resolves(waited) {
        assert forall|i: int| 0 <= i < since.len() implies !(#[trigger] since[i]).resolves(
            waited,
        ) by {
            assert(since[i] == events[issue + 1 + i]);
        }
    }
}

/// A query that has issued no fetch is not loading, whatever outcomes reach
/// it.
pub proof fn lemma_idle_stays_idle<T>(outcomes: Seq<QueryEvent<T>>)
    requires
        only_outcomes(outcomes),
    ensures
        QueryState::<T>::Idle.replay(outcomes) == QueryState::<T>::Idle,
{
    lemma_loading_until_resolved(QueryState::<T>::Idle, outcomes);
}

/// Shape mismatch tolerance. A reply whose body holds a JSON object is an
/// answer, whatever the object's `result` is: where it is missing, or of
/// another kind than the query reads, the query that waits for the reply
/// becomes ready without a value. It does not fail.
pub proof fn lemma_shape_mismatch_is_ready(query: QueryView, generation: u64, reply: FetchReply)
    requires
        query.state.awaits(generation),
        reply.document() is Ok,
        match query.extraction {
            Extraction::Text => !(result_field(reply.document().unwrap()) matches Some(
                Json::Text(_),
            )),
            Extraction::Unsigned => !(result_field(reply.document().unwrap()) matches Some(
                Json::Unsigned(_),
            )),
        },
    ensures
        query.delivered(generation, reply).state == QueryState::<RpcValueView>::Ready(generation, None),
{
}

/// Transport failure. Where no response arrives, or one whose status is not
/// a success, the query that waits for the reply fails and is no longer
/// loading.
pub proof fn lemma_transport_failure_fails(query: QueryView, generation: u64, reply: FetchReply)
    requires
        query.state.awaits(generation),
        reply matches FetchReply::Response { status, .. } ==> !is_success(status),
    ensures
        query.delivered(generation, reply).state == QueryState::<RpcValueView>::Failed(generation),
        !query.delivered(generation, reply).state.is_loading(),
{
}

/// A body that holds no JSON object fails the query that waits for it, even
/// under a success status.
pub proof fn lemma_protocol_failure_fails(query: QueryView, generation: u64, reply: FetchReply)
    requires
        query.state.awaits(generation),
        reply.document() == Err::<Json, FetchError>(FetchError::Protocol),
    ensures
        query.delivered(generation, reply).state == QueryState::<RpcValueView>::Failed(generation),
{
}

} // verus!
