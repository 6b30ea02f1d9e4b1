//! Request descriptors and the JSON-RPC 2.0 request objects made from them.

use crate::json::{
    distinct_keys, json_array, json_object, json_text, json_unsigned, object_members, value_model,
    value_models, Json,
};
use vstd::prelude::*;

verus! {

/// The method that asks a node for its network's name.
pub const STATE_NETWORK_NAME: &'static str = "Filecoin.StateNetworkName";

/// The method that asks a node for its network's protocol version.
pub const STATE_NETWORK_VERSION: &'static str = "Filecoin.StateNetworkVersion";

/// One JSON-RPC call: the method, its parameters in order, and the request id.
/// A descriptor is made once per query and never changed.
#[derive(Debug)]
pub struct RequestDescriptor {
    method: String,
    params: Vec<serde_json::Value>,
    id: u64,
}

/// What a [`RequestDescriptor`] holds.
pub ghost struct RequestView {
    pub method: Seq<char>,
    pub params: Seq<Json>,
    pub id: u64,
}

impl RequestView {
    /// The JSON-RPC 2.0 request object of the call:
    /// `{"jsonrpc": "2.0", "method": .., "params": [..], "id": ..}`.
    pub open spec fn envelope(self) -> Json {
        Json::Object(
            Map::empty().insert("jsonrpc"@, Json::Text("2.0"@)).insert(
                "method"@,
                Json::Text(self.method),
            ).insert("params"@, Json::Array(self.params)).insert("id"@, Json::Unsigned(self.id)),
        )
    }
}

/// The call that asks for the network's name: no parameters, id 0.
pub open spec fn network_name_call() -> RequestView {
    RequestView { method: STATE_NETWORK_NAME@, params: Seq::empty(), id: 0 }
}

/// The call that asks for the network's protocol version: one parameter, an
/// empty array, and id 0.
pub open spec fn network_version_call() -> RequestView {
    RequestView { method: STATE_NETWORK_VERSION@, params: seq![Json::Array(Seq::empty())], id: 0 }
}

impl View for RequestDescriptor {
    type V = RequestView;

    closed spec fn view(&self) -> RequestView {
        RequestView { method: self.method@, params: value_models(self.params@), id: self.id }
    }
}

/// The four member names of a request object differ from one another.
proof fn lemma_envelope_keys_differ()
    ensures
        "jsonrpc"@ != "method"@,
        "jsonrpc"@ != "params"@,
        "jsonrpc"@ != "id"@,
        "method"@ != "params"@,
        "method"@ != "id"@,
        "params"@ != "id"@,
{
    reveal_strlit("jsonrpc");
    reveal_strlit("method");
    reveal_strlit("params");
    reveal_strlit("id");
    assert("jsonrpc"@.len() == 7);
    assert("method"@.len() == 6);
    assert("params"@.len() == 6);
    assert("id"@.len() == 2);
    assert("method"@[0] != "params"@[0]);
}

impl RequestDescriptor {
    /// The call of `method` with `params` under the request id `id`.
    pub fn new(method: String, params: Vec<serde_json::Value>, id: u64) -> (descriptor: Self)
        ensures
            descriptor@ == (RequestView {
                method: method@,
                params: value_models(params@),
                id,
            }),
    {
        RequestDescriptor { method, params, id }
    }

    /// The call `Filecoin.StateNetworkName` with the parameters `[]` and id 0.
    pub fn network_name() -> (descriptor: Self)
        ensures
            descriptor@ == network_name_call(),
    {
        let descriptor = RequestDescriptor {
            method: STATE_NETWORK_NAME.to_owned(),
            params: Vec::new(),
            id: 0,
        };
        assert(descriptor@.params =~= Seq::empty());
        descriptor
    }

    /// The call `Filecoin.StateNetworkVersion` with the parameters `[[]]` and
    /// id 0.
    pub fn network_version() -> (descriptor: Self)
        ensures
            descriptor@ == network_version_call(),
    {
        let nothing: Vec<serde_json::Value> = Vec::new();
        assert(value_models(nothing@) =~= Seq::empty());
        let mut params: Vec<serde_json::Value> = Vec::new();
        params.push(json_array(nothing));
        let descriptor = RequestDescriptor {
            method: STATE_NETWORK_VERSION.to_owned(),
            params,
            id: 0,
        };
        assert(descriptor@.params =~= seq![Json::Array(Seq::empty())]);
        descriptor
    }

    /// The method's name.
    pub fn method(&self) -> (method: &str)
        ensures
            method@ == self@.method,
    {
        self.method.as_str()
    }

    /// The parameters, in order.
    pub fn params(&self) -> (params: &Vec<serde_json::Value>)
        ensures
            value_models(params@) == self@.params,
    {
        &self.params
    }

    /// The request id.
    pub fn id(&self) -> (id: u64)
        ensures
            id == self@.id,
    {
        self.id
    }

    /// The JSON-RPC 2.0 request object that is posted for this call.
    pub fn to_json(&self) -> (request: serde_json::Value)
        ensures
            value_model(request) == self@.envelope(),
    {
        let mut params: Vec<serde_json::Value> = Vec::new();
        let mut i: usize = 0;
        while i < self.params.len()
            invariant
                i <= self.params.len(),
                params.len() == i,
                forall|j: int| 0 <= j < i ==> value_model(params[j]) == value_model(self.params[j]),
            decreases self.params.len() - i,
        {
            params.push(self.params[i].clone());
            i += 1;
        }
        assert(value_models(params@) =~= value_models(self.params@));
        let mut entries: Vec<(String, serde_json::Value)> = Vec::new();
        entries.push(("jsonrpc".to_owned(), json_text("2.0")));
        entries.push(("method".to_owned(), json_text(self.method.as_str())));
        entries.push(("params".to_owned(), json_array(params)));
        entries.push(("id".to_owned(), json_unsigned(self.id)));
        proof {
            lemma_envelope_keys_differ();
            let e = entries@;
            assert(distinct_keys(e));
            let e3 = e.drop_last();
            let e2 = e3.drop_last();
            let e1 = e2.drop_last();
            let e0 = e1.drop_last();
            assert(e0.len() == 0);
            assert(object_members(e0) == Map::<Seq<char>, Json>::empty());
            assert(e1.last() == e[0] && e2.last() == e[1] && e3.last() == e[2]);
            assert(object_members(e1) == Map::<Seq<char>, Json>::empty().insert(
                e[0].0@,
                value_model(e[0].1),
            ));
            assert(object_members(e2) == object_members(e1).insert(e[1].0@, value_model(e[1].1)));
            assert(object_members(e3) == object_members(e2).insert(e[2].0@, value_model(e[2].1)));
            assert(object_members(e) == object_members(e3).insert(e[3].0@, value_model(e[3].1)));
        }
        json_object(entries)
    }
}

} // verus!
