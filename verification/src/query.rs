//! Derived queries: fetches that are issued again whenever the endpoint
//! changes, with the results of superseded fetches discarded.
//!
//! A query never performs a fetch. It numbers each fetch that is due by
//! generation, and takes the reply back through [`DerivedQuery::resolve`]
//! together with that number.

use crate::request::{RequestDescriptor, RequestView};
use crate::response::{
    decode, outcome_view, Extraction, FetchError, FetchReply, RpcValue, RpcValueView,
};
use vstd::prelude::*;

verus! {

/// Where a query stands. The generation numbers the fetches of one query in
/// the order in which they were issued, from 0.
#[derive(Clone, Debug, PartialEq, Eq)]
pub enum QueryState<T> {
    /// No fetch has been issued yet.
    Idle,
    /// The fetch of this generation is in flight.
    Loading(u64),
    /// The fetch of this generation was answered, with or without a value.
    Ready(u64, Option<T>),
    /// The fetch of this generation failed.
    Failed(u64),
}

impl<T: View> View for QueryState<T> {
    type V = QueryState<T::V>;

    open spec fn view(&self) -> QueryState<T::V> {
        match *self {
            QueryState::Idle => QueryState::Idle,
            QueryState::Loading(generation) => QueryState::Loading(generation),
            QueryState::Ready(generation, Some(value)) => QueryState::Ready(
                generation,
                Some(value@),
            ),
            QueryState::Ready(generation, None) => QueryState::Ready(generation, None),
            QueryState::Failed(generation) => QueryState::Failed(generation),
        }
    }
}

impl<T> QueryState<T> {
    /// The generation of the latest fetch issued, if any was.
    pub open spec fn generation(self) -> Option<u64> {
        match self {
            QueryState::Idle => None,
            QueryState::Loading(generation) => Some(generation),
            QueryState::Ready(generation, _) => Some(generation),
            QueryState::Failed(generation) => Some(generation),
        }
    }

    /// The generation that the next fetch will get.
    pub open spec fn next_generation(self) -> int {
        match self.generation() {
            None => 0,
            Some(generation) => generation + 1,
        }
    }

    /// Whether a fetch is in flight.
    pub open spec fn is_loading(self) -> bool {
        self is Loading
    }

    /// Whether the latest fetch failed.
    pub open spec fn has_failed(self) -> bool {
        self is Failed
    }

    /// The value that the latest fetch reported, if it has been answered and
    /// reported one.
    pub open spec fn value(self) -> Option<T> {
        match self {
            QueryState::Ready(_, value) => value,
            _ => None,
        }
    }

    /// Whether the state waits for the outcome of the fetch of `generation`.
    pub open spec fn awaits(self, generation: u64) -> bool {
        self matches QueryState::Loading(current) && current == generation
    }

    /// The state after a new fetch has been issued.
    pub open spec fn issued(self) -> Self {
        QueryState::Loading(self.next_generation() as u64)
    }

    /// The state after the fetch of `generation` has ended with `outcome`: the
    /// outcome is taken where the state waits for that fetch, and dropped
    /// everywhere else.
    pub open spec fn settled(self, generation: u64, outcome: Result<Option<T>, FetchError>) -> Self {
        if self.awaits(generation) {
            match outcome {
                Ok(value) => QueryState::Ready(generation, value),
                Err(_) => QueryState::Failed(generation),
            }
        } else {
            self
        }
    }
}

/// A query: the call it makes, how it reads the answer, and where it stands.
#[derive(Debug)]
pub struct DerivedQuery {
    descriptor: RequestDescriptor,
    extraction: Extraction,
    state: QueryState<RpcValue>,
}

/// What a [`DerivedQuery`] holds.
pub ghost struct QueryView {
    pub descriptor: RequestView,
    pub extraction: Extraction,
    pub state: QueryState<RpcValueView>,
}

impl QueryView {
    /// Whether the query has a generation left for one more fetch.
    pub open spec fn can_issue(self) -> bool {
        self.state.next_generation() <= u64::MAX
    }

    /// The query after a new fetch has been issued.
    pub open spec fn issued(self) -> QueryView {
        QueryView {
            descriptor: self.descriptor,
            extraction: self.extraction,
            state: self.state.issued(),
        }
    }

    /// The query after the fetch of `generation` has ended with `outcome`.
    pub open spec fn settled(
        self,
        generation: u64,
        outcome: Result<Option<RpcValueView>, FetchError>,
    ) -> QueryView {
        QueryView {
            descriptor: self.descriptor,
            extraction: self.extraction,
            state: self.state.settled(generation, outcome),
        }
    }

    /// The query after the reply to the fetch of `generation` has been read
    /// with the query's extraction.
    pub open spec fn delivered(self, generation: u64, reply: FetchReply) -> QueryView {
        self.settled(generation, reply.outcome(self.extraction))
    }
}

impl View for DerivedQuery {
    type V = QueryView;

    closed spec fn view(&self) -> QueryView {
        QueryView {
            descriptor: self.descriptor@,
            extraction: self.extraction,
            state: self.state@,
        }
    }
}

impl DerivedQuery {
    /// A query that will make the call of `descriptor` and read the answer
    /// with `extraction`. It has not fetched yet.
    pub fn new(descriptor: RequestDescriptor, extraction: Extraction) -> (query: Self)
        ensures
            query@ == (QueryView {
                descriptor: descriptor@,
                extraction,
                state: QueryState::Idle,
            }),
    {
        DerivedQuery { descriptor, extraction, state: QueryState::Idle }
    }

    /// Whether the query has a generation left for one more fetch.
    pub fn can_issue(&self) -> (possible: bool)
        ensures
            possible == self@.can_issue(),
    {
        match &self.state {
            QueryState::Idle => true,
            QueryState::Loading(current) => *current < u64::MAX,
            QueryState::Ready(current, _) => *current < u64::MAX,
            QueryState::Failed(current) => *current < u64::MAX,
        }
    }

    /// Issues a fetch: the query starts to load, and the generation of the
    /// fetch is returned. A fetch still in flight is not cancelled; its
    /// outcome will be dropped when it arrives.
    pub fn issue(&mut self) -> (generation: u64)
        requires
            old(self)@.can_issue(),
        ensures
            final(self)@ == old(self)@.issued(),
            generation == old(self)@.state.next_generation(),
    {
        let generation: u64 = match &self.state {
            QueryState::Idle => 0,
            QueryState::Loading(current) => *current + 1,
            QueryState::Ready(current, _) => *current + 1,
            QueryState::Failed(current) => *current + 1,
        };
        self.state = QueryState::Loading(generation);
        generation
    }

    /// Takes the outcome of the fetch of `generation`. It is applied, and
    /// `true` returned, where the query waits for that fetch; the outcome of
    /// every other fetch is dropped and the query left as it was.
    pub fn settle(&mut self, generation: u64, outcome: Result<Option<RpcValue>, FetchError>) -> (applied:
        bool)
        ensures
            final(self)@ == old(self)@.settled(generation, outcome_view(outcome)),
            applied == old(self)@.state.awaits(generation),
    {
        let awaited = match &self.state {
            QueryState::Loading(current) => *current == generation,
            _ => false,
        };
        if awaited {
            self.state = match outcome {
                Ok(value) => QueryState::Ready(generation, value),
                Err(_) => QueryState::Failed(generation),
            };
        }
        awaited
    }

    /// Takes the reply to the fetch of `generation`. Where the query waits
    /// for that fetch, the reply is read with the query's extraction and the
    /// query becomes ready or failed; the reply to every other fetch is
    /// dropped.
    pub fn resolve(&mut self, generation: u64, reply: &FetchReply) -> (applied: bool)
        ensures
            final(self)@ == old(self)@.delivered(generation, *reply),
            applied == old(self)@.state.awaits(generation),
    {
        let outcome = decode(reply, self.extraction);
        self.settle(generation, outcome)
    }

    /// The call that the query makes.
    pub fn descriptor(&self) -> (descriptor: &RequestDescriptor)
        ensures
            descriptor@ == self@.descriptor,
    {
        &self.descriptor
    }

    /// How the query reads the answer.
    pub fn extraction(&self) -> (extraction: Extraction)
        ensures
            extraction == self@.extraction,
    {
        self.extraction
    }

    /// Where the query stands.
    pub fn state(&self) -> (state: &QueryState<RpcValue>)
        ensures
            state@ == self@.state,
    {
        &self.state
    }

    /// The generation of the latest fetch issued, if any was.
    pub fn generation(&self) -> (generation: Option<u64>)
        ensures
            generation == self@.state.generation(),
    {
        match &self.state {
            QueryState::Idle => None,
            QueryState::Loading(current) => Some(*current),
            QueryState::Ready(current, _) => Some(*current),
            QueryState::Failed(current) => Some(*current),
        }
    }

    /// The value that the latest fetch reported, if it has been answered and
    /// reported one.
    pub fn value(&self) -> (value: Option<&RpcValue>)
        ensures
            match value {
                Some(found) => self@.state.value() == Some(found@),
                None => self@.state.value() is None,
            },
    {
        match &self.state {
            QueryState::Ready(_, Some(found)) => Some(found),
            _ => None,
        }
    }

    /// Whether a fetch is in flight.
    pub fn is_loading(&self) -> (loading: bool)
        ensures
            loading == self@.state.is_loading(),
    {
        match &self.state {
            QueryState::Loading(_) => true,
            _ => false,
        }
    }

    /// Whether the latest fetch failed.
    pub fn failed(&self) -> (failed: bool)
        ensures
            failed == self@.state.has_failed(),
    {
        match &self.state {
            QueryState::Failed(_) => true,
            _ => false,
        }
    }
}

} // verus!
