//! The endpoint store: the one RPC endpoint that every query is fetched from,
//! and the queries subscribed to it.
//!
//! The store performs no fetch. Whenever fetches are due, after a query is
//! subscribed and after the endpoint changes, it returns one [`FetchOrder`]
//! for each of them; the reply to each goes back through
//! [`EndpointStore::deliver`].

use crate::json::value_model;
use crate::query::{DerivedQuery, QueryState, QueryView};
use crate::request::RequestDescriptor;
use crate::response::{Extraction, FetchReply};
use vstd::prelude::*;

verus! {

/// The calibration-network node that a store starts with.
pub const GLIF_CALIBNET: &'static str = "https://api.calibration.node.glif.io";

/// The main-network node offered beside it.
pub const GLIF_MAINNET: &'static str = "https://api.node.glif.io/";

/// Names one query of a store: its place among the store's subscribers, in
/// the order of subscription.
#[derive(Clone, Copy, Debug, PartialEq, Eq, Structural)]
pub struct QueryHandle {
    pub index: usize,
}

/// One fetch that is due: post `request` to `endpoint`, and hand the reply
/// back for `query` under `generation`.
#[derive(Clone, Debug, PartialEq, Eq)]
pub struct FetchOrder {
    pub query: QueryHandle,
    pub generation: u64,
    pub endpoint: String,
    pub request: serde_json::Value,
}

impl FetchOrder {
    /// Whether this is the order for the next fetch of the subscriber at
    /// `index`, which stood as `query` before the fetch was issued, from
    /// `endpoint`.
    pub open spec fn is_for(self, index: int, query: QueryView, endpoint: Seq<char>) -> bool {
        &&& self.query.index == index
        &&& self.generation == query.state.next_generation()
        &&& self.endpoint@ == endpoint
        &&& value_model(self.request) == query.descriptor.envelope()
    }
}

/// Holds the currently selected endpoint URL and the queries subscribed to
/// it. The URL is not validated here: a bad one shows only when a fetch
/// against it fails.
#[derive(Debug)]
pub struct EndpointStore {
    current: String,
    subscribers: Vec<DerivedQuery>,
}

/// What an [`EndpointStore`] holds: the selected endpoint and its
/// subscribers, in the order of subscription.
pub ghost struct StoreView {
    pub endpoint: Seq<char>,
    pub queries: Seq<QueryView>,
}

impl StoreView {
    /// Whether every subscriber has a generation left for one more fetch.
    pub open spec fn can_notify(self) -> bool {
        forall|i: int| 0 <= i < self.queries.len() ==> (#[trigger] self.queries[i]).can_issue()
    }

    /// The subscribers after each of them has issued a fetch.
    pub open spec fn notified(self) -> Seq<QueryView> {
        Seq::new(self.queries.len(), |i: int| self.queries[i].issued())
    }
}

impl View for EndpointStore {
    type V = StoreView;

    closed spec fn view(&self) -> StoreView {
        StoreView {
            endpoint: self.current@,
            queries: Seq::new(self.subscribers@.len(), |i: int| self.subscribers@[i]@),
        }
    }
}

impl EndpointStore {
    /// A store that holds `endpoint`, without subscribers.
    pub fn new(endpoint: String) -> (store: Self)
        ensures
            store@ == (StoreView { endpoint: endpoint@, queries: Seq::empty() }),
    {
        let store = EndpointStore { current: endpoint, subscribers: Vec::new() };
        assert(store@.queries =~= Seq::empty());
        store
    }

    /// A store that holds the default endpoint, [`GLIF_CALIBNET`], without
    /// subscribers.
    pub fn with_default() -> (store: Self)
        ensures
            store@ == (StoreView { endpoint: GLIF_CALIBNET@, queries: Seq::empty() }),
    {
        EndpointStore::new(GLIF_CALIBNET.to_owned())
    }

    /// The selected endpoint.
    pub fn get(&self) -> (endpoint: &str)
        ensures
            endpoint@ == self@.endpoint,
    {
        self.current.as_str()
    }

    /// The number of subscribers.
    pub fn subscriber_count(&self) -> (count: usize)
        ensures
            count == self@.queries.len(),
    {
        self.subscribers.len()
    }

    /// Subscribes a query that makes the call of `descriptor` and reads the
    /// answer with `extraction`. The query starts to load its generation 0
    /// at once; the handle that names it from now on and the order for that
    /// first fetch, from the endpoint selected now, are returned.
    pub fn subscribe(&mut self, descriptor: RequestDescriptor, extraction: Extraction) -> (subscribed:
        (QueryHandle, FetchOrder))
        ensures
            final(self)@.endpoint == old(self)@.endpoint,
            final(self)@.queries == old(self)@.queries.push(
                QueryView { descriptor: descriptor@, extraction, state: QueryState::Loading(0) },
            ),
            subscribed.0.index == old(self)@.queries.len(),
            subscribed.1.is_for(
                old(self)@.queries.len() as int,
                QueryView { descriptor: descriptor@, extraction, state: QueryState::Idle },
                old(self)@.endpoint,
            ),
    {
        let mut query = DerivedQuery::new(descriptor, extraction);
        let generation: u64 = query.issue();
        let request = query.descriptor().to_json();
        let handle = QueryHandle { index: self.subscribers.len() };
        let order = FetchOrder {
            query: handle,
            generation,
            endpoint: self.current.clone(),
            request,
        };
        self.subscribers.push(query);
        assert(self@.queries =~= old(self)@.queries.push(
            QueryView { descriptor: descriptor@, extraction, state: QueryState::Loading(0) },
        ));
        (handle, order)
    }

    /// Whether [`EndpointStore::set`] may be called: every subscriber has a
    /// generation left for one more fetch.
    pub fn can_notify(&self) -> (possible: bool)
        ensures
            possible == self@.can_notify(),
    {
        let mut i: usize = 0;
        while i < self.subscribers.len()
            invariant
                i <= self.subscribers.len(),
                forall|j: int| 0 <= j < i ==> (#[trigger] self@.queries[j]).can_issue(),
            decreases self.subscribers.len() - i,
        {
            if !self.subscribers[i].can_issue() {
                assert(!self@.queries[i as int].can_issue());
                return false;
            }
            i += 1;
        }
        true
    }

    /// Replaces the selected endpoint. Where the new one differs from the
    /// old, every subscriber is notified before this returns: each starts to
    /// load its next generation, and the orders for those fetches from the
    /// new endpoint are returned, in the order of subscription. Where it is
    /// the same, nothing changes and nothing is ordered.
    pub fn set(&mut self, endpoint: String) -> (orders: Vec<FetchOrder>)
        requires
            old(self)@.can_notify(),
        ensures
            final(self)@.endpoint == endpoint@,
            old(self)@.endpoint == endpoint@ ==> final(self)@ == old(self)@ && orders@.len() == 0,
            old(self)@.endpoint != endpoint@ ==> {
                &&& final(self)@.queries == old(self)@.notified()
                &&& orders@.len() == old(self)@.queries.len()
                &&& forall|i: int|
                    0 <= i < orders@.len() ==> (#[trigger] orders@[i]).is_for(
                        i,
                        old(self)@.queries[i],
                        endpoint@,
                    )
            },
    {
        let ghost before = self@;
        let mut orders: Vec<FetchOrder> = Vec::new();
        let changed = !(self.current == endpoint);
        self.current = endpoint;
        assert(self@.queries =~= before.queries);
        if changed {
            let count: usize = self.subscribers.len();
            let mut i: usize = 0;
            while i < count
                invariant
                    i <= count,
                    count == self.subscribers.len(),
                    count == before.queries.len(),
                    before.can_notify(),
                    self.current@ == endpoint@,
                    orders@.len() == i,
                    forall|j: int|
                        0 <= j < i ==> (#[trigger] self.subscribers@[j])@
                            == before.queries[j].issued(),
                    forall|j: int|
                        i <= j < count ==> (#[trigger] self.subscribers@[j])@ == before.queries[j],
                    forall|j: int|
                        0 <= j < i ==> (#[trigger] orders@[j]).is_for(
                            j,
                            before.queries[j],
                            endpoint@,
                        ),
                decreases count - i,
            {
                assert(before.queries[i as int].can_issue());
                let generation: u64 = self.subscribers[i].issue();
                let request = self.subscribers[i].descriptor().to_json();
                orders.push(
                    FetchOrder {
                        query: QueryHandle { index: i },
                        generation,
                        endpoint: self.current.clone(),
                        request,
                    },
                );
                i += 1;
            }
            assert(self@.queries =~= before.notified());
        }
        orders
    }

    /// Takes the reply to the fetch of `generation` of the query that
    /// `query` names. Only that query can change: it reads the reply if it
    /// waits for that fetch, and drops it otherwise. A handle that names no
    /// subscriber of this store changes nothing.
    pub fn deliver(&mut self, query: QueryHandle, generation: u64, reply: &FetchReply) -> (applied:
        bool)
        ensures
            final(self)@.endpoint == old(self)@.endpoint,
            query.index < old(self)@.queries.len() ==> {
                &&& final(self)@.queries == old(self)@.queries.update(
                    query.index as int,
                    old(self)@.queries[query.index as int].delivered(generation, *reply),
                )
                &&& applied == old(self)@.queries[query.index as int].state.awaits(generation)
            },
            query.index >= old(self)@.queries.len() ==> final(self)@ == old(self)@ && !applied,
    {
        if query.index < self.subscribers.len() {
            let applied = self.subscribers[query.index].resolve(generation, reply);
            assert(self@.queries =~= old(self)@.queries.update(
                query.index as int,
                old(self)@.queries[query.index as int].delivered(generation, *reply),
            ));
            applied
        } else {
            false
        }
    }

    /// The subscriber that `query` names.
    pub fn subscriber(&self, query: QueryHandle) -> (subscriber: &DerivedQuery)
        requires
            query.index < self@.queries.len(),
        ensures
            subscriber@ == self@.queries[query.index as int],
    {
        &self.subscribers[query.index]
    }

    /// The query that `query` names, if it names a subscriber of this store.
    pub fn query(&self, query: QueryHandle) -> (found: Option<&DerivedQuery>)
        ensures
            match found {
                Some(subscriber) => query.index < self@.queries.len() && subscriber@
                    == self@.queries[query.index as int],
                None => query.index >= self@.queries.len(),
            },
    {
        if query.index < self.subscribers.len() {
            Some(&self.subscribers[query.index])
        } else {
            None
        }
    }
}

} // verus!
