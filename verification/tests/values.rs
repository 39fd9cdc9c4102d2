use dashboard_server::codec::{
    decode_none, decode_one, decode_texts, decode_two, encode_optional_text, encode_texts, Decode,
    Encode,
};
use dashboard_server::records::{GraphRow, Log};
use dashboard_server::requests::{
    read_optional_int, read_optional_text, read_period, read_text, GraphCommonArgs, GraphPeriod,
    LogGetRequest, ShellStartCodeChainRequest, UpdateCodeChainRequest,
};
use dashboard_server::responses::{
    encode_all, encode_logs, encode_optional_int, encode_rows, encode_start_option, encode_status,
    encode_targets, GraphNetworkOutAllAVGResponse, GraphNetworkOutAllResponse,
    GraphNetworkOutNodeExtensionResponse, GraphNetworkOutNodePeerResponse, LogGetResponse,
    LogGetTargetsResponse,
};
use dashboard_server::records::NodeStatus;
use dashboard_server::rpc::{encode, response, RpcError, RpcResponse};
use dashboard_server::value::{find, Field, Value};

fn text(s: &str) -> Value {
    Value::Text(s.to_string())
}

fn record(fields: Vec<(&str, Value)>) -> Value {
    Value::Record(
        fields.into_iter().map(|(name, value)| Field { name: name.to_string(), value }).collect(),
    )
}

#[test]
fn value_constructors_build_what_they_say() {
    assert_eq!(Value::text("hi"), Value::Text("hi".to_string()));
    assert_eq!(Value::list(vec![Value::Int(1), Value::Null]), Value::List(vec![Value::Int(1), Value::Null]));
    assert_eq!(
        Value::record(vec![Field::new("a", Value::Bool(true))]),
        Value::Record(vec![Field { name: "a".to_string(), value: Value::Bool(true) }])
    );
}

#[test]
fn field_lookup_finds_the_first_of_a_name() {
    let value = record(vec![("a", Value::Int(1)), ("b", Value::Int(2)), ("a", Value::Int(3))]);
    assert_eq!(value.field("a"), Some(&Value::Int(1)));
    assert_eq!(value.field("b"), Some(&Value::Int(2)));
    assert_eq!(value.field("c"), None);
    assert_eq!(Value::Int(1).field("a"), None);
    assert_eq!(Value::List(vec![]).field("a"), None);
    let fields = vec![Field::new("x", Value::Null)];
    assert_eq!(find(&fields, "x"), Some(&Value::Null));
    assert_eq!(find(&fields, ""), None);
    assert_eq!(find(&Vec::new(), "x"), None);
}

#[test]
fn text_is_decoded_from_text_only() {
    assert_eq!(String::decode(&text("alice")), Some("alice".to_string()));
    assert_eq!(String::decode(&text("")), Some(String::new()));
    assert_eq!(String::decode(&Value::Int(1)), None);
    assert_eq!(String::decode(&Value::Null), None);
    assert_eq!(String::decode(&Value::Decimal("1.5".to_string())), None);
    assert_eq!("alice".to_string().encode(), text("alice"));
}

#[test]
fn texts_are_decoded_from_a_list_of_texts() {
    assert_eq!(
        decode_texts(&Value::List(vec![text("a"), text("b")])),
        Some(vec!["a".to_string(), "b".to_string()])
    );
    assert_eq!(decode_texts(&Value::List(vec![])), Some(vec![]));
    assert_eq!(decode_texts(&Value::List(vec![text("a"), Value::Int(1)])), None);
    assert_eq!(decode_texts(&text("a")), None);
    assert_eq!(
        encode_texts(&vec!["a".to_string(), "b".to_string()]),
        Value::List(vec![text("a"), text("b")])
    );
    assert_eq!(encode_optional_text(&None), Value::Null);
    assert_eq!(encode_optional_text(&Some("v".to_string())), text("v"));
    assert_eq!(encode_optional_int(&None), Value::Null);
    assert_eq!(encode_optional_int(&Some(-4)), Value::Int(-4));
}

#[test]
fn arguments_are_decoded_by_position() {
    assert!(decode_none(&vec![]));
    assert!(!decode_none(&vec![Value::Null]));
    assert_eq!(decode_one::<String>(&vec![text("a")]), Some("a".to_string()));
    assert_eq!(decode_one::<String>(&vec![]), None);
    assert_eq!(decode_one::<String>(&vec![text("a"), text("b")]), None);
    assert_eq!(decode_one::<String>(&vec![Value::Int(3)]), None);
    assert_eq!(
        decode_two::<String, String>(&vec![text("a"), text("b")]),
        Some(("a".to_string(), "b".to_string()))
    );
    assert_eq!(decode_two::<String, String>(&vec![text("a")]), None);
    assert_eq!(decode_two::<String, String>(&vec![text("a"), Value::Null]), None);
    assert_eq!(decode_two::<String, String>(&vec![Value::Null, text("b")]), None);
    assert_eq!(decode_two::<String, String>(&vec![text("a"), text("b"), text("c")]), None);
}

#[test]
fn members_are_read_by_name_and_kind() {
    let value = record(vec![
        ("name", text("alice")),
        ("page", Value::Int(2)),
        ("none", Value::Null),
    ]);
    assert_eq!(read_text(&value, "name"), Some("alice".to_string()));
    assert_eq!(read_text(&value, "page"), None);
    assert_eq!(read_text(&value, "missing"), None);
    assert_eq!(read_text(&text("x"), "name"), None);
    assert_eq!(read_optional_text(&value, "name"), Ok(Some("alice".to_string())));
    assert_eq!(read_optional_text(&value, "none"), Ok(None));
    assert_eq!(read_optional_text(&value, "missing"), Ok(None));
    assert_eq!(read_optional_text(&value, "page"), Err(()));
    assert_eq!(read_optional_text(&Value::Null, "name"), Err(()));
    assert_eq!(read_optional_int(&value, "page"), Ok(Some(2)));
    assert_eq!(read_optional_int(&value, "none"), Ok(None));
    assert_eq!(read_optional_int(&value, "missing"), Ok(None));
    assert_eq!(read_optional_int(&value, "name"), Err(()));
    assert_eq!(read_optional_int(&Value::List(vec![]), "page"), Err(()));
}

#[test]
fn start_request_needs_env_and_args() {
    let full = record(vec![("env", text("A=1")), ("args", text("-v")), ("more", Value::Int(1))]);
    assert_eq!(
        ShellStartCodeChainRequest::decode(&full),
        Some(ShellStartCodeChainRequest { env: "A=1".to_string(), args: "-v".to_string() })
    );
    assert_eq!(ShellStartCodeChainRequest::decode(&record(vec![("env", text("A=1"))])), None);
    assert_eq!(ShellStartCodeChainRequest::decode(&record(vec![("args", text("-v"))])), None);
    assert_eq!(ShellStartCodeChainRequest::decode(&text("A=1")), None);
}

#[test]
fn update_request_is_told_apart_by_its_type() {
    assert_eq!(
        UpdateCodeChainRequest::decode(&record(vec![
            ("type", text("git")),
            ("commitHash", text("abc")),
        ])),
        Some(UpdateCodeChainRequest::Git { commit_hash: "abc".to_string() })
    );
    assert_eq!(
        UpdateCodeChainRequest::decode(&record(vec![
            ("type", text("binary")),
            ("binaryURL", text("u")),
            ("binaryChecksum", text("c")),
        ])),
        Some(UpdateCodeChainRequest::Binary {
            binary_url: "u".to_string(),
            binary_checksum: "c".to_string()
        })
    );
    assert_eq!(
        UpdateCodeChainRequest::decode(&record(vec![("type", text("git")), ("binaryURL", text("u"))])),
        None
    );
    assert_eq!(
        UpdateCodeChainRequest::decode(&record(vec![
            ("type", text("binary")),
            ("binaryChecksum", text("c")),
        ])),
        None
    );
    assert_eq!(UpdateCodeChainRequest::decode(&record(vec![("type", text("Git"))])), None);
    assert_eq!(UpdateCodeChainRequest::decode(&record(vec![("commitHash", text("abc"))])), None);
}

#[test]
fn graph_arguments_name_one_of_three_periods() {
    assert_eq!(read_period(&"minutes5".to_string()), Some(GraphPeriod::Minutes5));
    assert_eq!(read_period(&"hour".to_string()), Some(GraphPeriod::Hour));
    assert_eq!(read_period(&"day".to_string()), Some(GraphPeriod::Day));
    assert_eq!(read_period(&"Day".to_string()), None);
    assert_eq!(read_period(&String::new()), None);
    let args = record(vec![
        ("from", text("2019-01-01T00:00:00Z")),
        ("to", text("2019-01-02T00:00:00Z")),
        ("period", text("hour")),
    ]);
    assert_eq!(
        GraphCommonArgs::decode(&args),
        Some(GraphCommonArgs {
            from: "2019-01-01T00:00:00Z".to_string(),
            to: "2019-01-02T00:00:00Z".to_string(),
            period: GraphPeriod::Hour,
        })
    );
    assert_eq!(GraphCommonArgs::decode(&record(vec![("from", text("a")), ("to", text("b"))])), None);
    assert_eq!(GraphCommonArgs::decode(&Value::Null), None);
}

#[test]
fn log_request_may_leave_everything_out() {
    assert_eq!(
        LogGetRequest::decode(&record(vec![])),
        Some(LogGetRequest { search: None, page: None, item_per_page: None })
    );
    assert_eq!(
        LogGetRequest::decode(&record(vec![
            ("search", text("panic")),
            ("page", Value::Int(3)),
            ("itemPerPage", Value::Int(20)),
        ])),
        Some(LogGetRequest {
            search: Some("panic".to_string()),
            page: Some(3),
            item_per_page: Some(20)
        })
    );
    assert_eq!(
        LogGetRequest::decode(&record(vec![("search", Value::Null), ("page", Value::Null)])),
        Some(LogGetRequest { search: None, page: None, item_per_page: None })
    );
    assert_eq!(LogGetRequest::decode(&record(vec![("itemPerPage", text("20"))])), None);
    assert_eq!(LogGetRequest::decode(&record(vec![("page", Value::Decimal("1.5".to_string()))])), None);
    assert_eq!(LogGetRequest::decode(&Value::List(vec![])), None);
}

#[test]
fn statuses_are_written_as_their_names() {
    let names = [
        (NodeStatus::Starting, "Starting"),
        (NodeStatus::Run, "Run"),
        (NodeStatus::Stop, "Stop"),
        (NodeStatus::Updating, "Updating"),
        (NodeStatus::Error, "Error"),
        (NodeStatus::UFO, "UFO"),
    ];
    for (status, name) in names.iter() {
        assert_eq!(encode_status(*status), text(name));
    }
    assert_eq!(encode_start_option(&None), Value::Null);
}

fn log(message: &str) -> Log {
    Log {
        node_name: "alice".to_string(),
        level: "warn".to_string(),
        target: "sync".to_string(),
        message: message.to_string(),
        timestamp: "2019-01-01T00:00:00Z".to_string(),
    }
}

fn encoded_log(message: &str) -> Value {
    record(vec![
        ("nodeName", text("alice")),
        ("level", text("warn")),
        ("target", text("sync")),
        ("message", text(message)),
        ("timestamp", text("2019-01-01T00:00:00Z")),
    ])
}

#[test]
fn logs_and_targets_are_written_under_their_names() {
    assert_eq!(log("slow peer").encode(), encoded_log("slow peer"));
    let logs = vec![log("one"), log("two")];
    let expected = record(vec![("logs", Value::List(vec![encoded_log("one"), encoded_log("two")]))]);
    assert_eq!(encode_logs(&logs), expected);
    assert_eq!(LogGetResponse { logs }.encode(), expected);
    assert_eq!(encode_all::<Log>(&vec![]), Value::List(vec![]));
    let targets = vec!["sync".to_string(), "miner".to_string()];
    let expected = record(vec![("targets", Value::List(vec![text("sync"), text("miner")]))]);
    assert_eq!(encode_targets(&targets), expected);
    assert_eq!(LogGetTargetsResponse { targets }.encode(), expected);
}

fn rows() -> Vec<GraphRow> {
    vec![
        GraphRow { series: "alice".to_string(), time: "t0".to_string(), value: 1024 },
        GraphRow { series: "bob".to_string(), time: "t0".to_string(), value: 0 },
    ]
}

#[test]
fn graph_rows_are_written_under_rows() {
    let expected = record(vec![(
        "rows",
        Value::List(vec![
            record(vec![("series", text("alice")), ("time", text("t0")), ("value", Value::Int(1024))]),
            record(vec![("series", text("bob")), ("time", text("t0")), ("value", Value::Int(0))]),
        ]),
    )]);
    assert_eq!(encode_rows(&rows()), expected);
    assert_eq!(GraphNetworkOutAllResponse { rows: rows() }.encode(), expected);
    assert_eq!(GraphNetworkOutAllAVGResponse { rows: rows() }.encode(), expected);
    assert_eq!(GraphNetworkOutNodeExtensionResponse { rows: rows() }.encode(), expected);
    assert_eq!(GraphNetworkOutNodePeerResponse { rows: rows() }.encode(), expected);
    assert_eq!(encode_rows(&vec![]), record(vec![("rows", Value::List(vec![]))]));
}

#[test]
fn outcomes_are_encoded_as_value_or_code_and_message() {
    assert_eq!(encode(response(Value::Int(5))), RpcResponse::Success(Value::Int(5)));
    let cases = vec![
        (RpcError::MethodNotFound, -32601, "Method not found"),
        (RpcError::InvalidParams, -32602, "Invalid params"),
        (RpcError::EntityNotFound, -1, "Entity not found"),
        (RpcError::Internal("boom".to_string()), -32603, "boom"),
        (RpcError::Persistence("disk full".to_string()), -2, "disk full"),
        (RpcError::Node("busy".to_string()), -3, "busy"),
    ];
    for (error, code, message) in cases {
        assert_eq!(error.code(), code);
        assert_eq!(error.message(), message);
        assert_eq!(encode(Err(error)), RpcResponse::Error { code, message: message.to_string() });
    }
}
