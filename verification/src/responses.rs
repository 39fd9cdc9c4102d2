//! What the dashboard's calls give back, how each is made from what the
//! collaborators hold, and how each is written as a raw value.

use crate::codec::{
    encode_optional_text, encode_texts, encoded_optional_text, encoded_texts, named, text_of,
    texts_of, Encode,
};
use crate::records::{
    optional_int, ClientExtra, ClientQueryResult, ClientQueryResultView,
    ClientExtraView, Connection, ConnectionView, GraphRow, GraphRowView, Log, LogView, NodeStatus,
};
use crate::value::{contents, Field, Value, ValueView};
use vstd::prelude::*;

verus! {

/// The word that stands for a status.
pub open spec fn status_name(status: NodeStatus) -> Seq<char> {
    match status {
        NodeStatus::Starting => "Starting"@,
        NodeStatus::Run => "Run"@,
        NodeStatus::Stop => "Stop"@,
        NodeStatus::Updating => "Updating"@,
        NodeStatus::Error => "Error"@,
        NodeStatus::UFO => "UFO"@,
    }
}

/// Writes a status as its word.
pub fn encode_status(status: NodeStatus) -> (raw: Value)
    ensures
        raw@ == ValueView::Text(status_name(status)),
{
    match status {
        NodeStatus::Starting => Value::text("Starting"),
        NodeStatus::Run => Value::text("Run"),
        NodeStatus::Stop => Value::text("Stop"),
        NodeStatus::Updating => Value::text("Updating"),
        NodeStatus::Error => Value::text("Error"),
        NodeStatus::UFO => Value::text("UFO"),
    }
}

/// The raw value that stands for a whole number that may be absent.
pub open spec fn encoded_optional_int(number: Option<int>) -> ValueView {
    match number {
        Some(n) => ValueView::Int(n),
        None => ValueView::Null,
    }
}

/// Writes a whole number that may be absent: `Null` stands for none.
pub fn encode_optional_int(number: &Option<i64>) -> (raw: Value)
    ensures
        raw@ == encoded_optional_int(optional_int(*number)),
{
    match number {
        Some(n) => Value::Int(*n),
        None => Value::Null,
    }
}

/// The raw value that stands for a list: its members' raw values in order.
pub open spec fn encoded_all<T: Encode>(items: Seq<T::V>) -> ValueView {
    ValueView::List(Seq::new(items.len(), |i: int| T::encoded(items[i])))
}

/// Writes a list, member by member.
pub fn encode_all<T: Encode>(items: &Vec<T>) -> (raw: Value)
    ensures
        raw@ == encoded_all::<T>(contents(items@)),
{
    let mut raws: Vec<Value> = Vec::new();
    let mut i: usize = 0;
    while i < items.len()
        invariant
            i <= items.len(),
            raws.len() == i,
            forall|j: int| 0 <= j < i ==> raws@[j]@ == T::encoded(items@[j]@),
        decreases items.len() - i,
    {
        raws.push(items[i].encode());
        i += 1;
    }
    let raw = Value::list(raws);
    assert(raw@->List_0 =~= encoded_all::<T>(contents(items@))->List_0);
    raw
}

/// A copy of a text that may be absent.
pub fn copy_text(text: &Option<String>) -> (r: Option<String>)
    ensures
        text_of(r) == text_of(*text),
{
    match text {
        Some(s) => Some(s.clone()),
        None => None,
    }
}

/// A node as the network overview shows it.
#[derive(Debug, PartialEq, Eq)]
pub struct DashboardNode {
    pub name: String,
    pub status: NodeStatus,
    pub address: Option<String>,
    pub version: Option<String>,
    pub best_block_number: Option<i64>,
}

impl View for DashboardNode {
    type V = ClientQueryResultView;

    open spec fn view(&self) -> ClientQueryResultView {
        ClientQueryResultView {
            name: self.name@,
            status: self.status,
            address: text_of(self.address),
            version: text_of(self.version),
            best_block_number: optional_int(self.best_block_number),
        }
    }
}

impl DashboardNode {
    /// The overview's entry for a node: all that is known of it.
    pub fn from_db_state(state: &ClientQueryResult) -> (node: DashboardNode)
        ensures
            node@ == state@,
    {
        DashboardNode {
            name: state.name.clone(),
            status: state.status,
            address: copy_text(&state.address),
            version: copy_text(&state.version),
            best_block_number: state.best_block_number,
        }
    }
}

impl Encode for DashboardNode {
    open spec fn encoded(x: ClientQueryResultView) -> ValueView {
        ValueView::Record(
            seq![
                named("name"@, ValueView::Text(x.name)),
                named("status"@, ValueView::Text(status_name(x.status))),
                named("address"@, encoded_optional_text(x.address)),
                named("version"@, encoded_optional_text(x.version)),
                named("bestBlockNumber"@, encoded_optional_int(x.best_block_number)),
            ],
        )
    }

    fn encode(&self) -> (raw: Value) {
        let mut fields: Vec<Field> = Vec::new();
        fields.push(Field::new("name", Value::Text(self.name.clone())));
        fields.push(Field::new("status", encode_status(self.status)));
        fields.push(Field::new("address", encode_optional_text(&self.address)));
        fields.push(Field::new("version", encode_optional_text(&self.version)));
        fields.push(Field::new("bestBlockNumber", encode_optional_int(&self.best_block_number)));
        let raw = Value::record(fields);
        assert(raw@->Record_0 =~= Self::encoded(self@)->Record_0);
        raw
    }
}

/// A link between two nodes as the network overview shows it.
#[derive(Debug, PartialEq, Eq)]
pub struct NodeConnection {
    pub node_a: String,
    pub node_b: String,
}

impl View for NodeConnection {
    type V = ConnectionView;

    open spec fn view(&self) -> ConnectionView {
        ConnectionView { node_a: self.node_a@, node_b: self.node_b@ }
    }
}

impl NodeConnection {
    /// The overview's entry for a link.
    pub fn from_connection(connection: &Connection) -> (link: NodeConnection)
        ensures
            link@ == connection@,
    {
        NodeConnection { node_a: connection.node_a.clone(), node_b: connection.node_b.clone() }
    }
}

impl Encode for NodeConnection {
    open spec fn encoded(x: ConnectionView) -> ValueView {
        ValueView::Record(
            seq![
                named("nodeA"@, ValueView::Text(x.node_a)),
                named("nodeB"@, ValueView::Text(x.node_b)),
            ],
        )
    }

    fn encode(&self) -> (raw: Value) {
        let mut fields: Vec<Field> = Vec::new();
        fields.push(Field::new("nodeA", Value::Text(self.node_a.clone())));
        fields.push(Field::new("nodeB", Value::Text(self.node_b.clone())));
        let raw = Value::record(fields);
        assert(raw@->Record_0 =~= Self::encoded(self@)->Record_0);
        raw
    }
}

/// The network overview: every node and every link.
#[derive(Debug, PartialEq, Eq)]
pub struct DashboardGetNetworkResponse {
    pub nodes: Vec<DashboardNode>,
    pub connections: Vec<NodeConnection>,
}

pub struct DashboardGetNetworkResponseView {
    pub nodes: Seq<ClientQueryResultView>,
    pub connections: Seq<ConnectionView>,
}

impl View for DashboardGetNetworkResponse {
    type V = DashboardGetNetworkResponseView;

    open spec fn view(&self) -> DashboardGetNetworkResponseView {
        DashboardGetNetworkResponseView {
            nodes: contents(self.nodes@),
            connections: contents(self.connections@),
        }
    }
}

impl DashboardGetNetworkResponse {
    /// The overview of the given nodes and links, each in its place.
    pub fn from_db_state(states: &Vec<ClientQueryResult>, links: &Vec<Connection>) -> (r: Self)
        ensures
            r@ == (DashboardGetNetworkResponseView {
                nodes: contents(states@),
                connections: contents(links@),
            }),
    {
        let mut nodes: Vec<DashboardNode> = Vec::new();
        let mut i: usize = 0;
        while i < states.len()
            invariant
                i <= states.len(),
                nodes.len() == i,
                forall|j: int| 0 <= j < i ==> nodes@[j]@ == states@[j]@,
            decreases states.len() - i,
        {
            nodes.push(DashboardNode::from_db_state(&states[i]));
            i += 1;
        }
        let mut connections: Vec<NodeConnection> = Vec::new();
        let mut k: usize = 0;
        while k < links.len()
            invariant
                k <= links.len(),
                connections.len() == k,
                forall|j: int| 0 <= j < k ==> connections@[j]@ == links@[j]@,
            decreases links.len() - k,
        {
            connections.push(NodeConnection::from_connection(&links[k]));
            k += 1;
        }
        assert(contents(nodes@) =~= contents(states@));
        assert(contents(connections@) =~= contents(links@));
        DashboardGetNetworkResponse { nodes, connections }
    }
}

impl Encode for DashboardGetNetworkResponse {
    open spec fn encoded(x: DashboardGetNetworkResponseView) -> ValueView {
        ValueView::Record(
            seq![
                named("nodes"@, encoded_all::<DashboardNode>(x.nodes)),
                named("connections"@, encoded_all::<NodeConnection>(x.connections)),
            ],
        )
    }

    fn encode(&self) -> (raw: Value) {
        let mut fields: Vec<Field> = Vec::new();
        fields.push(Field::new("nodes", encode_all(&self.nodes)));
        fields.push(Field::new("connections", encode_all(&self.connections)));
        let raw = Value::record(fields);
        assert(raw@->Record_0 =~= Self::encoded(self@)->Record_0);
        raw
    }
}

/// All that is known of one node, with what it was last started with.
#[derive(Debug, PartialEq, Eq)]
pub struct NodeGetInfoResponse {
    pub name: String,
    pub status: NodeStatus,
    pub start_option: Option<ClientExtra>,
    pub address: Option<String>,
    pub version: Option<String>,
    pub best_block_number: Option<i64>,
}

pub struct NodeGetInfoResponseView {
    pub state: ClientQueryResultView,
    pub start_option: Option<ClientExtraView>,
}

/// The content of a start option that may be absent.
pub open spec fn optional_extra(extra: Option<ClientExtra>) -> Option<ClientExtraView> {
    match extra {
        Some(e) => Some(e@),
        None => None,
    }
}

impl View for NodeGetInfoResponse {
    type V = NodeGetInfoResponseView;

    open spec fn view(&self) -> NodeGetInfoResponseView {
        NodeGetInfoResponseView {
            state: ClientQueryResultView {
                name: self.name@,
                status: self.status,
                address: text_of(self.address),
                version: text_of(self.version),
                best_block_number: optional_int(self.best_block_number),
            },
            start_option: optional_extra(self.start_option),
        }
    }
}

impl NodeGetInfoResponse {
    /// What is known of a node, together with its start option.
    pub fn from_db_state(state: &ClientQueryResult, extra: &Option<ClientExtra>) -> (r: Self)
        ensures
            r@ == (NodeGetInfoResponseView { state: state@, start_option: optional_extra(*extra) }),
    {
        NodeGetInfoResponse {
            name: state.name.clone(),
            status: state.status,
            start_option: match extra {
                Some(e) => Some(
                    ClientExtra { prev_env: e.prev_env.clone(), prev_args: e.prev_args.clone() },
                ),
                None => None,
            },
            address: copy_text(&state.address),
            version: copy_text(&state.version),
            best_block_number: state.best_block_number,
        }
    }
}

/// The raw value that stands for a start option that may be absent.
pub open spec fn encoded_start_option(option: Option<ClientExtraView>) -> ValueView {
    match option {
        Some(e) => ValueView::Record(
            seq![
                named("env"@, ValueView::Text(e.prev_env)),
                named("args"@, ValueView::Text(e.prev_args)),
            ],
        ),
        None => ValueView::Null,
    }
}

/// Writes a start option that may be absent: `Null` stands for none.
pub fn encode_start_option(option: &Option<ClientExtra>) -> (raw: Value)
    ensures
        raw@ == encoded_start_option(optional_extra(*option)),
{
    match option {
        Some(e) => {
            let mut fields: Vec<Field> = Vec::new();
            fields.push(Field::new("env", Value::Text(e.prev_env.clone())));
            fields.push(Field::new("args", Value::Text(e.prev_args.clone())));
            let raw = Value::record(fields);
            assert(raw@->Record_0 =~= encoded_start_option(optional_extra(*option))->Record_0);
            raw
        },
        None => Value::Null,
    }
}

impl Encode for NodeGetInfoResponse {
    open spec fn encoded(x: NodeGetInfoResponseView) -> ValueView {
        ValueView::Record(
            seq![
                named("name"@, ValueView::Text(x.state.name)),
                named("status"@, ValueView::Text(status_name(x.state.status))),
                named("startOption"@, encoded_start_option(x.start_option)),
                named("address"@, encoded_optional_text(x.state.address)),
                named("version"@, encoded_optional_text(x.state.version)),
                named("bestBlockNumber"@, encoded_optional_int(x.state.best_block_number)),
            ],
        )
    }

    fn encode(&self) -> (raw: Value) {
        let mut fields: Vec<Field> = Vec::new();
        fields.push(Field::new("name", Value::Text(self.name.clone())));
        fields.push(Field::new("status", encode_status(self.status)));
        fields.push(Field::new("startOption", encode_start_option(&self.start_option)));
        fields.push(Field::new("address", encode_optional_text(&self.address)));
        fields.push(Field::new("version", encode_optional_text(&self.version)));
        fields.push(Field::new("bestBlockNumber", encode_optional_int(&self.best_block_number)));
        let raw = Value::record(fields);
        assert(raw@->Record_0 =~= Self::encoded(self@)->Record_0);
        raw
    }
}

/// The targets that log lines have been stored for.
#[derive(Debug, PartialEq, Eq)]
pub struct LogGetTargetsResponse {
    pub targets: Vec<String>,
}

impl View for LogGetTargetsResponse {
    type V = Seq<Seq<char>>;

    open spec fn view(&self) -> Seq<Seq<char>> {
        texts_of(self.targets@)
    }
}

impl Encode for LogGetTargetsResponse {
    open spec fn encoded(x: Seq<Seq<char>>) -> ValueView {
        ValueView::Record(seq![named("targets"@, encoded_texts(x))])
    }

    fn encode(&self) -> (raw: Value) {
        encode_targets(&self.targets)
    }
}

/// Writes the targets of the stored log lines.
pub fn encode_targets(targets: &Vec<String>) -> (raw: Value)
    ensures
        raw@ == LogGetTargetsResponse::encoded(texts_of(targets@)),
{
    let mut fields: Vec<Field> = Vec::new();
    fields.push(Field::new("targets", encode_texts(targets)));
    let raw = Value::record(fields);
    assert(raw@->Record_0 =~= LogGetTargetsResponse::encoded(texts_of(targets@))->Record_0);
    raw
}

impl Encode for Log {
    open spec fn encoded(x: LogView) -> ValueView {
        ValueView::Record(
            seq![
                named("nodeName"@, ValueView::Text(x.node_name)),
                named("level"@, ValueView::Text(x.level)),
                named("target"@, ValueView::Text(x.target)),
                named("message"@, ValueView::Text(x.message)),
                named("timestamp"@, ValueView::Text(x.timestamp)),
            ],
        )
    }

    fn encode(&self) -> (raw: Value) {
        let mut fields: Vec<Field> = Vec::new();
        fields.push(Field::new("nodeName", Value::Text(self.node_name.clone())));
        fields.push(Field::new("level", Value::Text(self.level.clone())));
        fields.push(Field::new("target", Value::Text(self.target.clone())));
        fields.push(Field::new("message", Value::Text(self.message.clone())));
        fields.push(Field::new("timestamp", Value::Text(self.timestamp.clone())));
        let raw = Value::record(fields);
        assert(raw@->Record_0 =~= Self::encoded(self@)->Record_0);
        raw
    }
}

/// The log lines that a query found.
#[derive(Debug, PartialEq, Eq)]
pub struct LogGetResponse {
    pub logs: Vec<Log>,
}

impl View for LogGetResponse {
    type V = Seq<LogView>;

    open spec fn view(&self) -> Seq<LogView> {
        contents(self.logs@)
    }
}

impl Encode for LogGetResponse {
    open spec fn encoded(x: Seq<LogView>) -> ValueView {
        ValueView::Record(seq![named("logs"@, encoded_all::<Log>(x))])
    }

    fn encode(&self) -> (raw: Value) {
        encode_logs(&self.logs)
    }
}

/// Writes the log lines that a query found.
pub fn encode_logs(logs: &Vec<Log>) -> (raw: Value)
    ensures
        raw@ == LogGetResponse::encoded(contents(logs@)),
{
    let mut fields: Vec<Field> = Vec::new();
    fields.push(Field::new("logs", encode_all(logs)));
    let raw = Value::record(fields);
    assert(raw@->Record_0 =~= LogGetResponse::encoded(contents(logs@))->Record_0);
    raw
}

impl Encode for GraphRow {
    open spec fn encoded(x: GraphRowView) -> ValueView {
        ValueView::Record(
            seq![
                named("series"@, ValueView::Text(x.series)),
                named("time"@, ValueView::Text(x.time)),
                named("value"@, ValueView::Int(x.value)),
            ],
        )
    }

    fn encode(&self) -> (raw: Value) {
        let mut fields: Vec<Field> = Vec::new();
        fields.push(Field::new("series", Value::Text(self.series.clone())));
        fields.push(Field::new("time", Value::Text(self.time.clone())));
        fields.push(Field::new("value", Value::Int(self.value)));
        let raw = Value::record(fields);
        assert(raw@->Record_0 =~= Self::encoded(self@)->Record_0);
        raw
    }
}

/// The raw value that stands for the rows of a graph.
pub open spec fn encoded_rows(rows: Seq<GraphRowView>) -> ValueView {
    ValueView::Record(seq![named("rows"@, encoded_all::<GraphRow>(rows))])
}

/// Writes the rows of a graph.
pub fn encode_rows(rows: &Vec<GraphRow>) -> (raw: Value)
    ensures
        raw@ == encoded_rows(contents(rows@)),
{
    let mut fields: Vec<Field> = Vec::new();
    fields.push(Field::new("rows", encode_all(rows)));
    let raw = Value::record(fields);
    assert(raw@->Record_0 =~= encoded_rows(contents(rows@))->Record_0);
    raw
}

/// The bytes that every node sent, node by node.
#[derive(Debug, PartialEq, Eq)]
pub struct GraphNetworkOutAllResponse {
    pub rows: Vec<GraphRow>,
}

/// The bytes that every node sent, averaged over each period.
#[derive(Debug, PartialEq, Eq)]
pub struct GraphNetworkOutAllAVGResponse {
    pub rows: Vec<GraphRow>,
}

/// The bytes that one node sent, by protocol extension.
#[derive(Debug, PartialEq, Eq)]
pub struct GraphNetworkOutNodeExtensionResponse {
    pub rows: Vec<GraphRow>,
}

/// The bytes that one node sent, by peer.
#[derive(Debug, PartialEq, Eq)]
pub struct GraphNetworkOutNodePeerResponse {
    pub rows: Vec<GraphRow>,
}

impl View for GraphNetworkOutAllResponse {
    type V = Seq<GraphRowView>;

    open spec fn view(&self) -> Seq<GraphRowView> {
        contents(self.rows@)
    }
}

impl View for GraphNetworkOutAllAVGResponse {
    type V = Seq<GraphRowView>;

    open spec fn view(&self) -> Seq<GraphRowView> {
        contents(self.rows@)
    }
}

impl View for GraphNetworkOutNodeExtensionResponse {
    type V = Seq<GraphRowView>;

    open spec fn view(&self) -> Seq<GraphRowView> {
        contents(self.rows@)
    }
}

impl View for GraphNetworkOutNodePeerResponse {
    type V = Seq<GraphRowView>;

    open spec fn view(&self) -> Seq<GraphRowView> {
        contents(self.rows@)
    }
}

impl Encode for GraphNetworkOutAllResponse {
    open spec fn encoded(x: Seq<GraphRowView>) -> ValueView {
        encoded_rows(x)
    }

    fn encode(&self) -> (raw: Value) {
        encode_rows(&self.rows)
    }
}

impl Encode for GraphNetworkOutAllAVGResponse {
    open spec fn encoded(x: Seq<GraphRowView>) -> ValueView {
        encoded_rows(x)
    }

    fn encode(&self) -> (raw: Value) {
        encode_rows(&self.rows)
    }
}

impl Encode for GraphNetworkOutNodeExtensionResponse {
    open spec fn encoded(x: Seq<GraphRowView>) -> ValueView {
        encoded_rows(x)
    }

    fn encode(&self) -> (raw: Value) {
        encode_rows(&self.rows)
    }
}

impl Encode for GraphNetworkOutNodePeerResponse {
    open spec fn encoded(x: Seq<GraphRowView>) -> ValueView {
        encoded_rows(x)
    }

    fn encode(&self) -> (raw: Value) {
        encode_rows(&self.rows)
    }
}

} // verus!
