//! What the collaborators hand to the handlers: the state that the
//! persistence layer keeps of each node, and the lines and rows it has
//! stored.

use crate::codec::text_of;
use vstd::prelude::*;

verus! {

/// What a node is doing.
#[derive(Debug, PartialEq, Eq, Clone, Copy)]
pub enum NodeStatus {
    Starting,
    Run,
    Stop,
    Updating,
    Error,
    UFO,
}

/// What is known of one node.
#[derive(Debug, PartialEq, Eq)]
pub struct ClientQueryResult {
    pub name: String,
    pub status: NodeStatus,
    pub address: Option<String>,
    pub version: Option<String>,
    pub best_block_number: Option<i64>,
}

pub struct ClientQueryResultView {
    pub name: Seq<char>,
    pub status: NodeStatus,
    pub address: Option<Seq<char>>,
    pub version: Option<Seq<char>>,
    pub best_block_number: Option<int>,
}

/// The content of a whole number that may be absent.
pub open spec fn optional_int(number: Option<i64>) -> Option<int> {
    match number {
        Some(n) => Some(n as int),
        None => None,
    }
}

impl View for ClientQueryResult {
    type V = ClientQueryResultView;

    open spec fn view(&self) -> ClientQueryResultView {
        ClientQueryResultView {
            name: self.name@,
            status: self.status,
            address: text_of(self.address),
            version: text_of(self.version),
            best_block_number: optional_int(self.best_block_number),
        }
    }
}

/// What was last used to start a node.
#[derive(Debug, PartialEq, Eq)]
pub struct ClientExtra {
    pub prev_env: String,
    pub prev_args: String,
}

pub struct ClientExtraView {
    pub prev_env: Seq<char>,
    pub prev_args: Seq<char>,
}

impl View for ClientExtra {
    type V = ClientExtraView;

    open spec fn view(&self) -> ClientExtraView {
        ClientExtraView { prev_env: self.prev_env@, prev_args: self.prev_args@ }
    }
}

/// A link between two nodes.
#[derive(Debug, PartialEq, Eq)]
pub struct Connection {
    pub node_a: String,
    pub node_b: String,
}

pub struct ConnectionView {
    pub node_a: Seq<char>,
    pub node_b: Seq<char>,
}

impl View for Connection {
    type V = ConnectionView;

    open spec fn view(&self) -> ConnectionView {
        ConnectionView { node_a: self.node_a@, node_b: self.node_b@ }
    }
}

/// One stored log line.
#[derive(Debug, PartialEq, Eq)]
pub struct Log {
    pub node_name: String,
    pub level: String,
    pub target: String,
    pub message: String,
    pub timestamp: String,
}

pub struct LogView {
    pub node_name: Seq<char>,
    pub level: Seq<char>,
    pub target: Seq<char>,
    pub message: Seq<char>,
    pub timestamp: Seq<char>,
}

impl View for Log {
    type V = LogView;

    open spec fn view(&self) -> LogView {
        LogView {
            node_name: self.node_name@,
            level: self.level@,
            target: self.target@,
            message: self.message@,
            timestamp: self.timestamp@,
        }
    }
}

/// One point of a graph: what it belongs to, when, and how many bytes.
#[derive(Debug, PartialEq, Eq)]
pub struct GraphRow {
    pub series: String,
    pub time: String,
    pub value: i64,
}

pub struct GraphRowView {
    pub series: Seq<char>,
    pub time: Seq<char>,
    pub value: int,
}

impl View for GraphRow {
    type V = GraphRowView;

    open spec fn view(&self) -> GraphRowView {
        GraphRowView { series: self.series@, time: self.time@, value: self.value as int }
    }
}

} // verus!
