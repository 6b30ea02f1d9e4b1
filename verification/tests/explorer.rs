use forest_explorer::endpoint::{FetchOrder, QueryHandle, GLIF_CALIBNET, GLIF_MAINNET};
use forest_explorer::explorer::Explorer;
use forest_explorer::query::QueryState;
use forest_explorer::request::RequestDescriptor;
use forest_explorer::response::{FetchReply, RpcValue};

const E1: &str = "http://e1.example/rpc/v1";
const E2: &str = "http://e2.example/rpc/v1";

fn ok(body: &str) -> FetchReply {
    FetchReply::Response { status: 200, body: body.as_bytes().to_vec() }
}

fn text(value: &str) -> RpcValue {
    RpcValue::Text(String::from(value))
}

#[test]
fn open_subscribes_both_queries() {
    let (explorer, orders) = Explorer::open(String::from(E1));
    assert_eq!(explorer.endpoint(), E1);
    assert_eq!(explorer.network_name().state(), &QueryState::Loading(0));
    assert_eq!(explorer.network_version().state(), &QueryState::Loading(0));
    assert_eq!(
        orders,
        vec![
            FetchOrder {
                query: explorer.name_handle(),
                generation: 0,
                endpoint: String::from(E1),
                request: RequestDescriptor::network_name().to_json(),
            },
            FetchOrder {
                query: explorer.version_handle(),
                generation: 0,
                endpoint: String::from(E1),
                request: RequestDescriptor::network_version().to_json(),
            },
        ]
    );
    assert_eq!(explorer.name_handle(), QueryHandle { index: 0 });
    assert_eq!(explorer.version_handle(), QueryHandle { index: 1 });
    assert!(explorer.can_refetch());
    assert_eq!(explorer.network_name_value(), None);
    assert_eq!(explorer.network_version_value(), None);
}

#[test]
fn open_default_starts_on_calibnet() {
    let (explorer, orders) = Explorer::open_default();
    assert_eq!(explorer.endpoint(), GLIF_CALIBNET);
    assert_eq!(orders.len(), 2);
    assert_eq!(orders[0].endpoint, "https://api.calibration.node.glif.io");
    assert_eq!(orders[1].endpoint, "https://api.calibration.node.glif.io");
    assert!(explorer.network_name().is_loading());
    assert!(explorer.network_version().is_loading());
}

#[test]
fn network_name_is_shown_after_its_reply() {
    let (mut explorer, orders) = Explorer::open(String::from(E1));
    let order = &orders[0];
    assert_eq!(order.request["method"].as_str(), Some("Filecoin.StateNetworkName"));
    let applied =
        explorer.deliver(order.query, order.generation, &ok(r#"{"result":"calibrationnet"}"#));
    assert!(applied);
    assert_eq!(explorer.network_name().value(), Some(&text("calibrationnet")));
    assert_eq!(explorer.network_name_value(), Some("calibrationnet"));
    assert!(!explorer.network_name().is_loading());
    assert!(!explorer.network_name().failed());
}

#[test]
fn network_version_is_shown_after_its_reply() {
    let (mut explorer, orders) = Explorer::open(String::from(E1));
    let order = &orders[1];
    assert_eq!(order.request["method"].as_str(), Some("Filecoin.StateNetworkVersion"));
    explorer.deliver(order.query, order.generation, &ok(r#"{"result":21}"#));
    assert_eq!(explorer.network_version().value(), Some(&RpcValue::Unsigned(21)));
    assert_eq!(explorer.network_version_value(), Some(21));
    assert!(!explorer.network_version().is_loading());
    assert!(!explorer.network_version().failed());
}

#[test]
fn superseded_fetch_resolving_first_is_not_shown() {
    let (mut explorer, first) = Explorer::open(String::from(E1));
    let second = explorer.select_endpoint(String::from(E2));
    assert_eq!(second[0].generation, 1);
    assert_eq!(second[0].endpoint, E2);

    let applied = explorer.deliver(first[0].query, first[0].generation, &ok(r#"{"result":"x"}"#));
    assert!(!applied);
    assert_eq!(explorer.network_name().value(), None);
    assert!(explorer.network_name().is_loading());

    let applied = explorer.deliver(second[0].query, second[0].generation, &ok(r#"{"result":"y"}"#));
    assert!(applied);
    assert_eq!(explorer.network_name().value(), Some(&text("y")));
    assert_eq!(explorer.network_name_value(), Some("y"));
    assert!(!explorer.network_name().is_loading());
}

#[test]
fn superseded_fetch_resolving_last_is_not_shown() {
    let (mut explorer, first) = Explorer::open(String::from(E1));
    let second = explorer.select_endpoint(String::from(E2));
    explorer.deliver(second[0].query, second[0].generation, &ok(r#"{"result":"y"}"#));
    explorer.deliver(first[0].query, first[0].generation, &ok(r#"{"result":"x"}"#));
    assert_eq!(explorer.network_name().value(), Some(&text("y")));
    assert_eq!(explorer.network_name().state(), &QueryState::Ready(1, Some(text("y"))));
}

#[test]
fn http_500_fails_the_query() {
    let (mut explorer, orders) = Explorer::open(String::from(E1));
    let reply = FetchReply::Response { status: 500, body: b"Internal Server Error".to_vec() };
    explorer.deliver(orders[0].query, orders[0].generation, &reply);
    assert!(explorer.network_name().failed());
    assert_eq!(explorer.network_name().value(), None);
    assert_eq!(explorer.network_name_value(), None);
    assert!(!explorer.network_name().is_loading());

    explorer.deliver(orders[1].query, orders[1].generation, &reply);
    assert!(explorer.network_version().failed());
    assert_eq!(explorer.network_version().value(), None);
}

#[test]
fn http_500_with_a_valid_body_still_fails() {
    let (mut explorer, _) = Explorer::open(String::from(E1));
    let reply =
        FetchReply::Response { status: 500, body: br#"{"result":"calibrationnet"}"#.to_vec() };
    explorer.deliver(explorer.name_handle(), 0, &reply);
    assert_eq!(explorer.network_name().state(), &QueryState::Failed(0));
}

#[test]
fn shape_mismatch_is_ready_without_value() {
    let (mut explorer, _) = Explorer::open(String::from(E1));
    explorer.deliver(explorer.name_handle(), 0, &ok(r#"{"jsonrpc":"2.0","result":21,"id":0}"#));
    assert_eq!(explorer.network_name().state(), &QueryState::Ready(0, None));
    assert!(!explorer.network_name().failed());
    assert!(!explorer.network_name().is_loading());
    assert_eq!(explorer.network_name().value(), None);

    explorer.deliver(explorer.version_handle(), 0, &ok(r#"{"jsonrpc":"2.0","id":0}"#));
    assert_eq!(explorer.network_version().state(), &QueryState::Ready(0, None));
    assert!(!explorer.network_version().failed());
}

#[test]
fn version_sent_as_text_is_a_shape_mismatch() {
    let (mut explorer, _) = Explorer::open(String::from(E1));
    explorer.deliver(explorer.version_handle(), 0, &ok(r#"{"result":"21"}"#));
    assert_eq!(explorer.network_version().state(), &QueryState::Ready(0, None));
    assert_eq!(explorer.network_version_value(), None);
}

#[test]
fn transport_failure_fails_and_stops_loading() {
    let (mut explorer, _) = Explorer::open(String::from(E1));
    assert!(explorer.network_name().is_loading());
    let applied = explorer.deliver(explorer.name_handle(), 0, &FetchReply::NoResponse);
    assert!(applied);
    assert_eq!(explorer.network_name().state(), &QueryState::Failed(0));
    assert!(explorer.network_name().failed());
    assert!(!explorer.network_name().is_loading());
}

#[test]
fn unparsable_body_fails() {
    let (mut explorer, _) = Explorer::open(String::from(E1));
    explorer.deliver(explorer.name_handle(), 0, &ok("<!doctype html>"));
    assert_eq!(explorer.network_name().state(), &QueryState::Failed(0));
    explorer.deliver(explorer.version_handle(), 0, &ok("[21]"));
    assert_eq!(explorer.network_version().state(), &QueryState::Failed(0));
}

#[test]
fn selecting_the_same_endpoint_orders_nothing() {
    let (mut explorer, _) = Explorer::open(String::from(E1));
    explorer.deliver(explorer.name_handle(), 0, &ok(r#"{"result":"calibrationnet"}"#));
    let orders = explorer.select_endpoint(String::from(E1));
    assert!(orders.is_empty());
    assert_eq!(explorer.endpoint(), E1);
    assert_eq!(explorer.network_name_value(), Some("calibrationnet"));
    assert_eq!(explorer.network_version().state(), &QueryState::Loading(0));
}

#[test]
fn selecting_another_endpoint_refetches_both() {
    let (mut explorer, _) = Explorer::open_default();
    explorer.deliver(explorer.name_handle(), 0, &ok(r#"{"result":"calibrationnet"}"#));
    explorer.deliver(explorer.version_handle(), 0, &FetchReply::NoResponse);
    let orders = explorer.select_endpoint(String::from(GLIF_MAINNET));
    assert_eq!(explorer.endpoint(), GLIF_MAINNET);
    assert_eq!(
        orders,
        vec![
            FetchOrder {
                query: explorer.name_handle(),
                generation: 1,
                endpoint: String::from(GLIF_MAINNET),
                request: RequestDescriptor::network_name().to_json(),
            },
            FetchOrder {
                query: explorer.version_handle(),
                generation: 1,
                endpoint: String::from(GLIF_MAINNET),
                request: RequestDescriptor::network_version().to_json(),
            },
        ]
    );
    assert_eq!(explorer.network_name().state(), &QueryState::Loading(1));
    assert_eq!(explorer.network_version().state(), &QueryState::Loading(1));
    assert!(!explorer.network_version().failed());
}

#[test]
fn queries_do_not_interfere() {
    let (mut explorer, _) = Explorer::open(String::from(E1));
    explorer.deliver(explorer.name_handle(), 0, &ok(r#"{"result":"calibrationnet"}"#));
    assert_eq!(explorer.network_version().state(), &QueryState::Loading(0));
    explorer.deliver(explorer.version_handle(), 0, &FetchReply::NoResponse);
    assert_eq!(
        explorer.network_name().state(),
        &QueryState::Ready(0, Some(text("calibrationnet")))
    );
    assert_eq!(explorer.network_version().state(), &QueryState::Failed(0));
    assert_eq!(explorer.endpoint(), E1);
}

#[test]
fn reply_for_a_handle_of_neither_query_is_dropped() {
    let (mut explorer, _) = Explorer::open(String::from(E1));
    let applied = explorer.deliver(QueryHandle { index: 2 }, 0, &ok(r#"{"result":"x"}"#));
    assert!(!applied);
    assert_eq!(explorer.network_name().state(), &QueryState::Loading(0));
    assert_eq!(explorer.network_version().state(), &QueryState::Loading(0));
}

#[test]
fn rapid_changes_show_only_the_last_endpoint() {
    let (mut explorer, _) = Explorer::open(String::from("http://e0"));
    let mut last = 0;
    for change in 1u64..=5 {
        let orders = explorer.select_endpoint(format!("http://e{}", change));
        assert_eq!(orders[1].generation, change);
        last = orders[1].generation;
    }
    for generation in [3u64, 0, 5, 1, 4, 2] {
        let body = format!(r#"{{"result":{}}}"#, 100 + generation);
        explorer.deliver(explorer.version_handle(), generation, &ok(&body));
    }
    assert_eq!(last, 5);
    assert_eq!(explorer.network_version_value(), Some(105));
    assert_eq!(
        explorer.network_version().state(),
        &QueryState::Ready(5, Some(RpcValue::Unsigned(105)))
    );
    assert_eq!(explorer.endpoint(), "http://e5");
    assert!(explorer.network_name().is_loading());
}
