//! The explorer: one endpoint store with the two queries that follow it, the
//! network's name and the network's protocol version.

use crate::endpoint::{EndpointStore, FetchOrder, QueryHandle, GLIF_CALIBNET};
use crate::query::{DerivedQuery, QueryState, QueryView};
use crate::request::{network_name_call, network_version_call, RequestDescriptor};
use crate::response::{Extraction, FetchReply, RpcValueView};
use vstd::prelude::*;

verus! {

/// The query for the network's name, standing at `state`: it calls
/// `Filecoin.StateNetworkName` and reads a string.
pub open spec fn name_query(state: QueryState<RpcValueView>) -> QueryView {
    QueryView { descriptor: network_name_call(), extraction: Extraction::Text, state }
}

/// The query for the network's protocol version, standing at `state`: it
/// calls `Filecoin.StateNetworkVersion` and reads an unsigned number.
pub open spec fn version_query(state: QueryState<RpcValueView>) -> QueryView {
    QueryView { descriptor: network_version_call(), extraction: Extraction::Unsigned, state }
}

/// The selected endpoint and the two queries derived from it.
#[derive(Debug)]
pub struct Explorer {
    store: EndpointStore,
    network_name: QueryHandle,
    network_version: QueryHandle,
}

/// What an [`Explorer`] holds: the selected endpoint, where each of the two
/// queries stands, and the handle under which each takes its replies.
pub ghost struct ExplorerView {
    pub endpoint: Seq<char>,
    pub network_name: QueryState<RpcValueView>,
    pub network_version: QueryState<RpcValueView>,
    pub name_handle: QueryHandle,
    pub version_handle: QueryHandle,
}

impl ExplorerView {
    /// Whether both queries can issue one more fetch: neither has used up its
    /// generations.
    pub open spec fn can_refetch(self) -> bool {
        &&& self.network_name.next_generation() <= u64::MAX
        &&& self.network_version.next_generation() <= u64::MAX
    }
}

impl View for Explorer {
    type V = ExplorerView;

    closed spec fn view(&self) -> ExplorerView {
        ExplorerView {
            endpoint: self.store@.endpoint,
            network_name: self.store@.queries[0].state,
            network_version: self.store@.queries[1].state,
            name_handle: self.network_name,
            version_handle: self.network_version,
        }
    }
}

impl Explorer {
    /// Whether the store has exactly the two queries as its subscribers, the
    /// name first, each bound to its own call. Every explorer that
    /// [`Explorer::open`] made is so, and stays so.
    pub closed spec fn wf(&self) -> bool {
        &&& self.store@.queries.len() == 2
        &&& self.network_name.index == 0
        &&& self.network_version.index == 1
        &&& self.store@.queries[0] == name_query(self.store@.queries[0].state)
        &&& self.store@.queries[1] == version_query(self.store@.queries[1].state)
    }

    /// An explorer on `endpoint`. Both queries are subscribed, so both are
    /// loading their generation 0; the orders for those two fetches are
    /// returned, the one for the name first.
    pub fn open(endpoint: String) -> (opened: (Self, Vec<FetchOrder>))
        ensures
            opened.0.wf(),
            opened.0@ == (ExplorerView {
                endpoint: endpoint@,
                network_name: QueryState::Loading(0),
                network_version: QueryState::Loading(0),
                name_handle: QueryHandle { index: 0 },
                version_handle: QueryHandle { index: 1 },
            }),
            opened.1@.len() == 2,
            opened.1@[0].is_for(0, name_query(QueryState::Idle), endpoint@),
            opened.1@[1].is_for(1, version_query(QueryState::Idle), endpoint@),
    {
        let mut store = EndpointStore::new(endpoint);
        let (network_name, name_order) = store.subscribe(
            RequestDescriptor::network_name(),
            Extraction::Text,
        );
        let (network_version, version_order) = store.subscribe(
            RequestDescriptor::network_version(),
            Extraction::Unsigned,
        );
        let mut orders: Vec<FetchOrder> = Vec::new();
        orders.push(name_order);
        orders.push(version_order);
        (Explorer { store, network_name, network_version }, orders)
    }

    /// An explorer on the default endpoint, [`GLIF_CALIBNET`].
    pub fn open_default() -> (opened: (Self, Vec<FetchOrder>))
        ensures
            opened.0.wf(),
            opened.0@ == (ExplorerView {
                endpoint: GLIF_CALIBNET@,
                network_name: QueryState::Loading(0),
                network_version: QueryState::Loading(0),
                name_handle: QueryHandle { index: 0 },
                version_handle: QueryHandle { index: 1 },
            }),
            opened.1@.len() == 2,
            opened.1@[0].is_for(0, name_query(QueryState::Idle), GLIF_CALIBNET@),
            opened.1@[1].is_for(1, version_query(QueryState::Idle), GLIF_CALIBNET@),
    {
        Explorer::open(GLIF_CALIBNET.to_owned())
    }

    /// The handle of the query for the network's name: the one that the
    /// store gave out when the query was subscribed, which names the store's
    /// first subscriber.
    pub fn name_handle(&self) -> (handle: QueryHandle)
        ensures
            handle == self@.name_handle,
            self.wf() ==> handle.index == 0,
    {
        self.network_name
    }

    /// The handle of the query for the network's protocol version: the one
    /// that the store gave out when the query was subscribed, which names the
    /// store's second subscriber.
    pub fn version_handle(&self) -> (handle: QueryHandle)
        ensures
            handle == self@.version_handle,
            self.wf() ==> handle.index == 1,
    {
        self.network_version
    }

    /// Whether [`Explorer::select_endpoint`] may be called: both queries have
    /// a generation left.
    pub fn can_refetch(&self) -> (possible: bool)
        requires
            self.wf(),
        ensures
            possible == self@.can_refetch(),
    {
        let possible = self.store.can_notify();
        proof {
            if self@.can_refetch() {
                assert forall|i: int| 0 <= i < self.store@.queries.len() implies (
                #[trigger] self.store@.queries[i]).can_issue() by {
                    assert(i == 0 || i == 1);
                }
            } else {
                assert(!self.store@.queries[0].can_issue() || !self.store@.queries[1].can_issue());
            }
        }
        possible
    }

    /// Selects `endpoint`. Where it differs from the one selected before, both
    /// queries are notified before this returns: each starts to load its next
    /// generation, and the orders for the two fetches are returned, the one
    /// for the name first. Where it is the same, nothing changes and nothing
    /// is ordered.
    pub fn select_endpoint(&mut self, endpoint: String) -> (orders: Vec<FetchOrder>)
        requires
            old(self).wf(),
            old(self)@.can_refetch(),
        ensures
            final(self).wf(),
            final(self)@.endpoint == endpoint@,
            final(self)@.name_handle == old(self)@.name_handle,
            final(self)@.version_handle == old(self)@.version_handle,
            old(self)@.endpoint == endpoint@ ==> final(self)@ == old(self)@ && orders@.len() == 0,
            old(self)@.endpoint != endpoint@ ==> {
                &&& final(self)@.network_name == old(self)@.network_name.issued()
                &&& final(self)@.network_version == old(self)@.network_version.issued()
                &&& orders@.len() == 2
                &&& orders@[0].is_for(0, name_query(old(self)@.network_name), endpoint@)
                &&& orders@[1].is_for(1, version_query(old(self)@.network_version), endpoint@)
            },
    {
        proof {
            assert forall|i: int| 0 <= i < self.store@.queries.len() implies (
            #[trigger] self.store@.queries[i]).can_issue() by {
                assert(i == 0 || i == 1);
            }
        }
        self.store.set(endpoint)
    }

    /// Takes the reply to the fetch of `generation` of the query that
    /// `query` names. Only that query can change; a handle that names
    /// neither query changes nothing.
    pub fn deliver(&mut self, query: QueryHandle, generation: u64, reply: &FetchReply) -> (applied:
        bool)
        requires
            old(self).wf(),
        ensures
            final(self).wf(),
            final(self)@.endpoint == old(self)@.endpoint,
            final(self)@.name_handle == old(self)@.name_handle,
            final(self)@.version_handle == old(self)@.version_handle,
            query.index == 0 ==> {
                &&& final(self)@.network_name == old(self)@.network_name.settled(
                    generation,
                    reply.outcome(Extraction::Text),
                )
                &&& final(self)@.network_version == old(self)@.network_version
                &&& applied == old(self)@.network_name.awaits(generation)
            },
            query.index == 1 ==> {
                &&& final(self)@.network_version == old(self)@.network_version.settled(
                    generation,
                    reply.outcome(Extraction::Unsigned),
                )
                &&& final(self)@.network_name == old(self)@.network_name
                &&& applied == old(self)@.network_version.awaits(generation)
            },
            query.index > 1 ==> final(self)@ == old(self)@ && !applied,
    {
        self.store.deliver(query, generation, reply)
    }

    /// The selected endpoint.
    pub fn endpoint(&self) -> (endpoint: &str)
        ensures
            endpoint@ == self@.endpoint,
    {
        self.store.get()
    }

    /// The query for the network's name.
    pub fn network_name(&self) -> (query: &DerivedQuery)
        requires
            self.wf(),
        ensures
            query@ == name_query(self@.network_name),
    {
        self.store.subscriber(self.network_name)
    }

    /// The query for the network's protocol version.
    pub fn network_version(&self) -> (query: &DerivedQuery)
        requires
            self.wf(),
        ensures
            query@ == version_query(self@.network_version),
    {
        self.store.subscriber(self.network_version)
    }

    /// The network's name, once the query for it has reported one.
    pub fn network_name_value(&self) -> (name: Option<&str>)
        requires
            self.wf(),
        ensures
            match name {
                Some(text) => self@.network_name.value() == Some(RpcValueView::Text(text@)),
                None => !(self@.network_name.value() matches Some(RpcValueView::Text(_))),
            },
    {
        match self.network_name().value() {
            Some(value) => value.as_text(),
            None => None,
        }
    }

    /// The network's protocol version, once the query for it has reported
    /// one.
    pub fn network_version_value(&self) -> (version: Option<u64>)
        requires
            self.wf(),
        ensures
            match version {
                Some(number) => self@.network_version.value() == Some(
                    RpcValueView::Unsigned(number),
                ),
                None => !(self@.network_version.value() matches Some(RpcValueView::Unsigned(_))),
            },
    {
        match self.network_version().value() {
            Some(value) => value.as_unsigned(),
            None => None,
        }
    }
}

} // verus!
