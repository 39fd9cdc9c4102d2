use dashboard_server::api::{add_routing, collaborator, Answer, Collaborator, Method, Query};
use dashboard_server::ask::AskError;
use dashboard_server::records::{ClientExtra, ClientQueryResult, Connection, NodeStatus};
use dashboard_server::requests::{ShellStartCodeChainRequest, UpdateCodeChainRequest};
use dashboard_server::router::{Dispatch, Request, Router};
use dashboard_server::rpc::{
    DomainError, RpcResponse, ENTITY_NOT_FOUND, INTERNAL_ERROR, INVALID_PARAMS, METHOD_NOT_FOUND,
    NODE_FAILED, PERSISTENCE_FAILED,
};
use dashboard_server::value::{Field, Value};

fn text(s: &str) -> Value {
    Value::Text(s.to_string())
}

fn record(fields: Vec<(&str, Value)>) -> Value {
    Value::Record(
        fields.into_iter().map(|(name, value)| Field { name: name.to_string(), value }).collect(),
    )
}

fn request(method: &str, params: Vec<Value>) -> Request {
    Request { method: method.to_string(), params }
}

fn dashboard() -> Router<Method> {
    let mut router = Router::new();
    add_routing(&mut router);
    router
}

fn error(code: i64, message: &str) -> Dispatch<Query> {
    Dispatch::Respond(RpcResponse::Error { code, message: message.to_string() })
}

fn success(value: Value) -> Dispatch<Query> {
    Dispatch::Respond(RpcResponse::Success(value))
}

#[test]
fn ping_answers_pong() {
    let mut router = Router::new();
    router.add_route("ping", Method::Ping);
    let got = router.dispatch(&request("ping", vec![]), &vec![]);
    assert_eq!(got, success(text("pong")));
}

#[test]
fn node_get_info_of_unknown_node_is_entity_not_found() {
    let mut router = Router::new();
    router.add_route("node_getInfo", Method::NodeGetInfo);
    let call = request("node_getInfo", vec![text("alice")]);
    let mut answers = Vec::new();
    assert_eq!(
        router.dispatch(&call, &answers),
        Dispatch::Ask(Query::ClientQueryResult("alice".to_string()))
    );
    answers.push(Answer::ClientQueryResult(None));
    assert_eq!(router.dispatch(&call, &answers), error(ENTITY_NOT_FOUND, "Entity not found"));
    assert_eq!(ENTITY_NOT_FOUND, -1);
}

#[test]
fn node_get_info_without_params_is_invalid_params() {
    let router = dashboard();
    let got = router.dispatch(&request("node_getInfo", vec![]), &vec![]);
    assert_eq!(got, error(INVALID_PARAMS, "Invalid params"));
    assert_eq!(INVALID_PARAMS, -32602);
}

#[test]
fn unregistered_method_is_method_not_found() {
    let router = dashboard();
    let got = router.dispatch(&request("node_reboot", vec![text("alice")]), &vec![]);
    assert_eq!(got, error(METHOD_NOT_FOUND, "Method not found"));
    assert_eq!(METHOD_NOT_FOUND, -32601);
    let empty: Router<Method> = Router::new();
    assert_eq!(
        empty.dispatch(&request("ping", vec![]), &vec![]),
        error(METHOD_NOT_FOUND, "Method not found")
    );
}

#[test]
fn unregistered_method_stays_not_found_whatever_was_answered() {
    let router = dashboard();
    let answers = vec![Answer::Client(true), Answer::Done];
    let got = router.dispatch(&request("nope", vec![]), &answers);
    assert_eq!(got, error(METHOD_NOT_FOUND, "Method not found"));
}

#[test]
fn add_routing_registers_every_method_once() {
    let router = dashboard();
    let names = [
        "ping",
        "node_getInfo",
        "dashboard_getNetwork",
        "node_start",
        "node_stop",
        "node_update",
        "log_getTargets",
        "log_get",
        "graph_network_out_all_node",
        "graph_network_out_all_node_avg",
        "graph_network_out_node_extension",
        "graph_network_out_node_peer",
    ];
    assert_eq!(router.len(), 12);
    for name in names.iter() {
        assert!(router.has_route(name), "{}", name);
    }
    assert!(!router.has_route("Ping"));
    assert_eq!(router.route("node_stop"), Some(&Method::NodeStop));
    assert_eq!(router.route("graph_network_out_node_peer"), Some(&Method::GraphNetworkOutNodePeer));
    assert_eq!(router.route("missing"), None);
}

#[test]
fn wrong_arity_asks_nothing() {
    let router = dashboard();
    let invalid = error(INVALID_PARAMS, "Invalid params");
    let cases = vec![
        request("ping", vec![text("extra")]),
        request("dashboard_getNetwork", vec![Value::Null]),
        request("log_getTargets", vec![Value::Int(1)]),
        request("node_getInfo", vec![text("a"), text("b")]),
        request("node_stop", vec![]),
        request("node_start", vec![text("a")]),
        request("node_update", vec![text("a")]),
        request("log_get", vec![]),
        request("graph_network_out_all_node", vec![]),
        request("graph_network_out_all_node_avg", vec![Value::Null, Value::Null]),
        request("graph_network_out_node_extension", vec![text("a")]),
        request("graph_network_out_node_peer", vec![text("a")]),
    ];
    for call in cases.iter() {
        assert_eq!(router.dispatch(call, &vec![]), invalid, "{:?}", call);
        assert_eq!(router.dispatch(call, &vec![Answer::Client(true)]), invalid, "{:?}", call);
    }
}

#[test]
fn wrong_shape_asks_nothing() {
    let router = dashboard();
    let invalid = error(INVALID_PARAMS, "Invalid params");
    let cases = vec![
        request("node_getInfo", vec![Value::Int(7)]),
        request("node_stop", vec![Value::List(vec![text("a")])]),
        request("node_start", vec![text("a"), record(vec![("env", text("x"))])]),
        request("node_start", vec![text("a"), record(vec![("env", text("x")), ("args", Value::Int(1))])]),
        request("node_start", vec![Value::Null, record(vec![("env", text("x")), ("args", text("y"))])]),
        request("node_update", vec![text("a"), record(vec![("type", text("svn"))])]),
        request("node_update", vec![text("a"), record(vec![("type", text("git"))])]),
        request(
            "node_update",
            vec![text("a"), record(vec![("type", text("binary")), ("binaryURL", text("u"))])],
        ),
        request("log_get", vec![text("all")]),
        request("log_get", vec![record(vec![("page", text("1"))])]),
        request("log_get", vec![record(vec![("search", Value::Int(1))])]),
        request(
            "graph_network_out_all_node",
            vec![record(vec![("from", text("a")), ("to", text("b")), ("period", text("week"))])],
        ),
        request(
            "graph_network_out_all_node",
            vec![record(vec![("from", text("a")), ("period", text("hour"))])],
        ),
    ];
    for call in cases.iter() {
        assert_eq!(router.dispatch(call, &vec![]), invalid, "{:?}", call);
    }
}

fn alice() -> ClientQueryResult {
    ClientQueryResult {
        name: "alice".to_string(),
        status: NodeStatus::Run,
        address: Some("127.0.0.1:3485".to_string()),
        version: None,
        best_block_number: Some(42),
    }
}

#[test]
fn node_get_info_asks_for_state_then_start_option() {
    let router = dashboard();
    let call = request("node_getInfo", vec![text("alice")]);
    let mut answers = Vec::new();
    assert_eq!(
        router.dispatch(&call, &answers),
        Dispatch::Ask(Query::ClientQueryResult("alice".to_string()))
    );
    answers.push(Answer::ClientQueryResult(Some(alice())));
    assert_eq!(
        router.dispatch(&call, &answers),
        Dispatch::Ask(Query::ClientExtra("alice".to_string()))
    );
    answers.push(Answer::ClientExtra(Some(ClientExtra {
        prev_env: "RUST_LOG=info".to_string(),
        prev_args: "-c husky".to_string(),
    })));
    let expected = record(vec![
        ("name", text("alice")),
        ("status", text("Run")),
        ("startOption", record(vec![("env", text("RUST_LOG=info")), ("args", text("-c husky"))])),
        ("address", text("127.0.0.1:3485")),
        ("version", Value::Null),
        ("bestBlockNumber", Value::Int(42)),
    ]);
    assert_eq!(router.dispatch(&call, &answers), success(expected));
}

#[test]
fn node_get_info_without_start_option() {
    let router = dashboard();
    let call = request("node_getInfo", vec![text("alice")]);
    let answers = vec![Answer::ClientQueryResult(Some(alice())), Answer::ClientExtra(None)];
    let expected = record(vec![
        ("name", text("alice")),
        ("status", text("Run")),
        ("startOption", Value::Null),
        ("address", text("127.0.0.1:3485")),
        ("version", Value::Null),
        ("bestBlockNumber", Value::Int(42)),
    ]);
    assert_eq!(router.dispatch(&call, &answers), success(expected));
}

#[test]
fn dashboard_get_network_asks_for_nodes_then_links() {
    let router = dashboard();
    let call = request("dashboard_getNetwork", vec![]);
    let mut answers = Vec::new();
    assert_eq!(router.dispatch(&call, &answers), Dispatch::Ask(Query::ClientsState));
    let bob = ClientQueryResult {
        name: "bob".to_string(),
        status: NodeStatus::UFO,
        address: None,
        version: Some("1.2.0".to_string()),
        best_block_number: None,
    };
    answers.push(Answer::ClientsState(vec![alice(), bob]));
    assert_eq!(router.dispatch(&call, &answers), Dispatch::Ask(Query::Connections));
    answers.push(Answer::Connections(vec![Connection {
        node_a: "alice".to_string(),
        node_b: "bob".to_string(),
    }]));
    let expected = record(vec![
        (
            "nodes",
            Value::List(vec![
                record(vec![
                    ("name", text("alice")),
                    ("status", text("Run")),
                    ("address", text("127.0.0.1:3485")),
                    ("version", Value::Null),
                    ("bestBlockNumber", Value::Int(42)),
                ]),
                record(vec![
                    ("name", text("bob")),
                    ("status", text("UFO")),
                    ("address", Value::Null),
                    ("version", text("1.2.0")),
                    ("bestBlockNumber", Value::Null),
                ]),
            ]),
        ),
        (
            "connections",
            Value::List(vec![record(vec![("nodeA", text("alice")), ("nodeB", text("bob"))])]),
        ),
    ]);
    assert_eq!(router.dispatch(&call, &answers), success(expected));
}

#[test]
fn dashboard_get_network_stops_at_the_first_failure() {
    let router = dashboard();
    let call = request("dashboard_getNetwork", vec![]);
    let failed = vec![Answer::Failed(AskError::Domain(DomainError::Persistence(
        "connection refused".to_string(),
    )))];
    assert_eq!(router.dispatch(&call, &failed), error(PERSISTENCE_FAILED, "connection refused"));
    assert_eq!(PERSISTENCE_FAILED, -2);
    let late = vec![Answer::ClientsState(vec![]), Answer::Failed(AskError::Timeout)];
    assert_eq!(router.dispatch(&call, &late), error(INTERNAL_ERROR, "no reply in time"));
    assert_eq!(INTERNAL_ERROR, -32603);
    let gone = vec![Answer::Failed(AskError::ActorGone)];
    assert_eq!(router.dispatch(&call, &gone), error(INTERNAL_ERROR, "actor gone"));
    let odd = vec![Answer::Done];
    assert_eq!(router.dispatch(&call, &odd), error(INTERNAL_ERROR, "unexpected answer"));
}

fn start_request() -> Value {
    record(vec![("env", text("A=1")), ("args", text("--fast"))])
}

#[test]
fn node_start_starts_then_saves_the_start_option() {
    let router = dashboard();
    let call = request("node_start", vec![text("alice"), start_request()]);
    let wanted =
        || ShellStartCodeChainRequest { env: "A=1".to_string(), args: "--fast".to_string() };
    let mut answers = Vec::new();
    assert_eq!(router.dispatch(&call, &answers), Dispatch::Ask(Query::Client("alice".to_string())));
    answers.push(Answer::Client(true));
    assert_eq!(
        router.dispatch(&call, &answers),
        Dispatch::Ask(Query::ShellStart("alice".to_string(), wanted()))
    );
    answers.push(Answer::Done);
    assert_eq!(
        router.dispatch(&call, &answers),
        Dispatch::Tell(Query::SaveStartOption("alice".to_string(), wanted()))
    );
    answers.push(Answer::Done);
    assert_eq!(router.dispatch(&call, &answers), success(Value::Null));
}

#[test]
fn node_start_of_unknown_node_is_entity_not_found() {
    let router = dashboard();
    let call = request("node_start", vec![text("alice"), start_request()]);
    let answers = vec![Answer::Client(false)];
    assert_eq!(router.dispatch(&call, &answers), error(ENTITY_NOT_FOUND, "Entity not found"));
}

#[test]
fn node_start_that_the_node_refuses_saves_nothing() {
    let router = dashboard();
    let call = request("node_start", vec![text("alice"), start_request()]);
    let answers = vec![
        Answer::Client(true),
        Answer::Failed(AskError::Domain(DomainError::Node("already running".to_string()))),
    ];
    assert_eq!(router.dispatch(&call, &answers), error(NODE_FAILED, "already running"));
    assert_eq!(NODE_FAILED, -3);
}

#[test]
fn node_whose_actor_is_gone_is_not_found() {
    let router = dashboard();
    let stop = request("node_stop", vec![text("alice")]);
    let answers = vec![Answer::Client(true), Answer::Failed(AskError::ActorGone)];
    assert_eq!(router.dispatch(&stop, &answers), error(ENTITY_NOT_FOUND, "Entity not found"));
    let manager_gone = vec![Answer::Failed(AskError::ActorGone)];
    assert_eq!(router.dispatch(&stop, &manager_gone), error(INTERNAL_ERROR, "actor gone"));
    let late = vec![Answer::Client(true), Answer::Failed(AskError::Timeout)];
    assert_eq!(router.dispatch(&stop, &late), error(INTERNAL_ERROR, "no reply in time"));
}

#[test]
fn node_stop_stops_a_connected_node() {
    let router = dashboard();
    let call = request("node_stop", vec![text("alice")]);
    let mut answers = Vec::new();
    assert_eq!(router.dispatch(&call, &answers), Dispatch::Ask(Query::Client("alice".to_string())));
    answers.push(Answer::Client(true));
    assert_eq!(
        router.dispatch(&call, &answers),
        Dispatch::Ask(Query::ShellStop("alice".to_string()))
    );
    answers.push(Answer::Done);
    assert_eq!(router.dispatch(&call, &answers), success(Value::Null));
}

#[test]
fn node_update_restarts_with_the_previous_start_option() {
    let router = dashboard();
    let update = record(vec![("type", text("git")), ("commitHash", text("abc123"))]);
    let call = request("node_update", vec![text("alice"), update]);
    let mut answers = Vec::new();
    assert_eq!(router.dispatch(&call, &answers), Dispatch::Ask(Query::Client("alice".to_string())));
    answers.push(Answer::Client(true));
    assert_eq!(
        router.dispatch(&call, &answers),
        Dispatch::Ask(Query::ClientExtra("alice".to_string()))
    );
    answers.push(Answer::ClientExtra(Some(ClientExtra {
        prev_env: "A=1".to_string(),
        prev_args: "--fast".to_string(),
    })));
    assert_eq!(
        router.dispatch(&call, &answers),
        Dispatch::Ask(Query::ShellUpdate(
            "alice".to_string(),
            ShellStartCodeChainRequest { env: "A=1".to_string(), args: "--fast".to_string() },
            UpdateCodeChainRequest::Git { commit_hash: "abc123".to_string() },
        ))
    );
    answers.push(Answer::Done);
    assert_eq!(router.dispatch(&call, &answers), success(Value::Null));
}

#[test]
fn node_update_without_a_start_option_restarts_with_nothing() {
    let router = dashboard();
    let update = record(vec![
        ("type", text("binary")),
        ("binaryURL", text("https://example.org/node")),
        ("binaryChecksum", text("f00d")),
    ]);
    let call = request("node_update", vec![text("alice"), update]);
    let answers = vec![Answer::Client(true), Answer::ClientExtra(None)];
    assert_eq!(
        router.dispatch(&call, &answers),
        Dispatch::Ask(Query::ShellUpdate(
            "alice".to_string(),
            ShellStartCodeChainRequest { env: String::new(), args: String::new() },
            UpdateCodeChainRequest::Binary {
                binary_url: "https://example.org/node".to_string(),
                binary_checksum: "f00d".to_string(),
            },
        ))
    );
}

#[test]
fn node_update_of_unknown_node_asks_the_persistence_layer_nothing() {
    let router = dashboard();
    let update = record(vec![("type", text("git")), ("commitHash", text("abc123"))]);
    let call = request("node_update", vec![text("alice"), update]);
    let answers = vec![Answer::Client(false)];
    assert_eq!(router.dispatch(&call, &answers), error(ENTITY_NOT_FOUND, "Entity not found"));
}

#[test]
fn questions_go_to_the_actor_they_are_meant_for() {
    let start = || ShellStartCodeChainRequest { env: String::new(), args: String::new() };
    let nodes = vec![
        Query::Client("a".to_string()),
        Query::ShellStart("a".to_string(), start()),
        Query::ShellStop("a".to_string()),
        Query::ShellUpdate(
            "a".to_string(),
            start(),
            UpdateCodeChainRequest::Git { commit_hash: "c".to_string() },
        ),
    ];
    for query in nodes.iter() {
        assert_eq!(collaborator(query), Collaborator::NodeManager, "{:?}", query);
    }
    let persistence = vec![
        Query::ClientsState,
        Query::Connections,
        Query::ClientQueryResult("a".to_string()),
        Query::ClientExtra("a".to_string()),
        Query::SaveStartOption("a".to_string(), start()),
        Query::LogTargets,
    ];
    for query in persistence.iter() {
        assert_eq!(collaborator(query), Collaborator::Persistence, "{:?}", query);
    }
}

#[test]
fn every_call_is_over_after_three_answers() {
    let router = dashboard();
    let update = record(vec![("type", text("git")), ("commitHash", text("abc123"))]);
    let calls = vec![
        request("ping", vec![]),
        request("node_getInfo", vec![text("alice")]),
        request("dashboard_getNetwork", vec![]),
        request("node_start", vec![text("alice"), start_request()]),
        request("node_stop", vec![text("alice")]),
        request("node_update", vec![text("alice"), update]),
        request("log_getTargets", vec![]),
        request("log_get", vec![record(vec![])]),
    ];
    let runs: Vec<Vec<Answer>> = vec![
        vec![Answer::Client(true), Answer::Done, Answer::Done],
        vec![Answer::Client(true), Answer::ClientExtra(None), Answer::Done],
        vec![Answer::Done, Answer::Done, Answer::Done],
        vec![Answer::ClientsState(vec![]), Answer::Connections(vec![]), Answer::Done],
    ];
    for call in calls.iter() {
        for answers in runs.iter() {
            match router.dispatch(call, answers) {
                Dispatch::Respond(_) => {}
                other => panic!("{:?} goes on with {:?}", call, other),
            }
        }
    }
}
