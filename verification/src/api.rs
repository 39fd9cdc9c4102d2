//! The dashboard's calls: what each asks of the persistence layer and of the
//! nodes, in which order, and what it answers its caller.
//!
//! A handler runs from the start each time, with the answers that its
//! questions have had so far, and either ends the call or names the next
//! question. It holds no handle and waits for nothing: whoever runs it puts
//! the question to the collaborator and comes back with the answer.

use crate::ask::AskError;
use crate::codec::{
    decode_none, decode_one, decode_two, no_arguments, one_argument, texts_of, two_arguments,
    Encode,
};
use crate::records::{
    ClientExtra, ClientExtraView, ClientQueryResult, ClientQueryResultView, Connection,
    ConnectionView, GraphRow, GraphRowView, Log, LogView,
};
use crate::requests::{
    GraphCommonArgs, GraphCommonArgsView, LogGetRequest, LogGetRequestView, NodeName,
    ShellStartCodeChainRequest, ShellStartCodeChainRequestView, UpdateCodeChainRequest,
    UpdateCodeChainRequestView,
};
use crate::responses::{
    encode_logs, encode_rows, encode_targets, encoded_rows, optional_extra,
    DashboardGetNetworkResponse, DashboardGetNetworkResponseView, LogGetResponse,
    LogGetTargetsResponse, NodeGetInfoResponse, NodeGetInfoResponseView,
};
use crate::router::{
    distinct_names, index_of, index_of_is_first, route_of, EntryView, Route, Router, Step,
    StepView,
};
use crate::rpc::{response, DomainError, DomainErrorView, RpcError, RpcErrorView};
use crate::value::{contents, Value, ValueView};
use vstd::prelude::*;

verus! {

/// What a handler may ask or tell a collaborator.
#[derive(Debug, PartialEq, Eq)]
pub enum Query {
    /// To the persistence layer: the state of every node.
    ClientsState,
    /// To the persistence layer: every link between nodes.
    Connections,
    /// To the persistence layer: the state of one node.
    ClientQueryResult(NodeName),
    /// To the persistence layer: what one node was last started with.
    ClientExtra(NodeName),
    /// To the persistence layer: keep what a node was started with.
    SaveStartOption(NodeName, ShellStartCodeChainRequest),
    /// To the persistence layer: the targets of the stored log lines.
    LogTargets,
    /// To the persistence layer: the log lines that match.
    Logs(LogGetRequest),
    /// To the persistence layer: one of the four graphs.
    NetworkOutAll(GraphCommonArgs),
    NetworkOutAllAvg(GraphCommonArgs),
    NetworkOutNodeExtension(NodeName, GraphCommonArgs),
    NetworkOutNodePeer(NodeName, GraphCommonArgs),
    /// To the node manager: is a node of this name connected.
    Client(NodeName),
    /// To one node: start, stop, or replace the program.
    ShellStart(NodeName, ShellStartCodeChainRequest),
    ShellStop(NodeName),
    ShellUpdate(NodeName, ShellStartCodeChainRequest, UpdateCodeChainRequest),
}

/// The mathematical content of a [`Query`].
pub enum QueryView {
    ClientsState,
    Connections,
    ClientQueryResult(Seq<char>),
    ClientExtra(Seq<char>),
    SaveStartOption(Seq<char>, ShellStartCodeChainRequestView),
    LogTargets,
    Logs(LogGetRequestView),
    NetworkOutAll(GraphCommonArgsView),
    NetworkOutAllAvg(GraphCommonArgsView),
    NetworkOutNodeExtension(Seq<char>, GraphCommonArgsView),
    NetworkOutNodePeer(Seq<char>, GraphCommonArgsView),
    Client(Seq<char>),
    ShellStart(Seq<char>, ShellStartCodeChainRequestView),
    ShellStop(Seq<char>),
    ShellUpdate(Seq<char>, ShellStartCodeChainRequestView, UpdateCodeChainRequestView),
}

impl View for Query {
    type V = QueryView;

    open spec fn view(&self) -> QueryView {
        match self {
            Query::ClientsState => QueryView::ClientsState,
            Query::Connections => QueryView::Connections,
            Query::ClientQueryResult(n) => QueryView::ClientQueryResult(n@),
            Query::ClientExtra(n) => QueryView::ClientExtra(n@),
            Query::SaveStartOption(n, r) => QueryView::SaveStartOption(n@, r@),
            Query::LogTargets => QueryView::LogTargets,
            Query::Logs(r) => QueryView::Logs(r@),
            Query::NetworkOutAll(a) => QueryView::NetworkOutAll(a@),
            Query::NetworkOutAllAvg(a) => QueryView::NetworkOutAllAvg(a@),
            Query::NetworkOutNodeExtension(n, a) => QueryView::NetworkOutNodeExtension(n@, a@),
            Query::NetworkOutNodePeer(n, a) => QueryView::NetworkOutNodePeer(n@, a@),
            Query::Client(n) => QueryView::Client(n@),
            Query::ShellStart(n, r) => QueryView::ShellStart(n@, r@),
            Query::ShellStop(n) => QueryView::ShellStop(n@),
            Query::ShellUpdate(n, p, r) => QueryView::ShellUpdate(n@, p@, r@),
        }
    }
}

/// What comes back for a [`Query`].
#[derive(Debug, PartialEq, Eq)]
pub enum Answer {
    ClientsState(Vec<ClientQueryResult>),
    Connections(Vec<Connection>),
    ClientQueryResult(Option<ClientQueryResult>),
    ClientExtra(Option<ClientExtra>),
    LogTargets(Vec<String>),
    Logs(Vec<Log>),
    Rows(Vec<GraphRow>),
    /// Whether the node manager knows a node of the name.
    Client(bool),
    /// The command was carried out, or the message was sent.
    Done,
    /// The question had no answer.
    Failed(AskError<DomainError>),
}

/// The mathematical content of an [`Answer`].
pub enum AnswerView {
    ClientsState(Seq<ClientQueryResultView>),
    Connections(Seq<ConnectionView>),
    ClientQueryResult(Option<ClientQueryResultView>),
    ClientExtra(Option<ClientExtraView>),
    LogTargets(Seq<Seq<char>>),
    Logs(Seq<LogView>),
    Rows(Seq<GraphRowView>),
    Client(bool),
    Done,
    Failed(AskError<DomainErrorView>),
}

/// The content of a node's state that may be absent.
pub open spec fn optional_state(state: Option<ClientQueryResult>) -> Option<ClientQueryResultView> {
    match state {
        Some(s) => Some(s@),
        None => None,
    }
}

impl View for Answer {
    type V = AnswerView;

    open spec fn view(&self) -> AnswerView {
        match self {
            Answer::ClientsState(s) => AnswerView::ClientsState(contents(s@)),
            Answer::Connections(c) => AnswerView::Connections(contents(c@)),
            Answer::ClientQueryResult(s) => AnswerView::ClientQueryResult(optional_state(*s)),
            Answer::ClientExtra(e) => AnswerView::ClientExtra(optional_extra(*e)),
            Answer::LogTargets(t) => AnswerView::LogTargets(texts_of(t@)),
            Answer::Logs(l) => AnswerView::Logs(contents(l@)),
            Answer::Rows(r) => AnswerView::Rows(contents(r@)),
            Answer::Client(b) => AnswerView::Client(*b),
            Answer::Done => AnswerView::Done,
            Answer::Failed(e) => AnswerView::Failed(e@),
        }
    }
}

/// The error that a call ends with when a question to the persistence layer
/// or to the node manager did not get the answer it was put for.
pub open spec fn failure(answer: AnswerView) -> RpcErrorView {
    match answer {
        AnswerView::Failed(e) => RpcErrorView::of_ask(e),
        _ => RpcErrorView::Internal("unexpected answer"@),
    }
}

/// As `failure`, for a question that was put to one node: a node whose actor
/// is gone is a node that is not there.
pub open spec fn node_failure(answer: AnswerView) -> RpcErrorView {
    match answer {
        AnswerView::Failed(e) => RpcErrorView::of_node_ask(e),
        _ => RpcErrorView::Internal("unexpected answer"@),
    }
}

fn fail(answer: &Answer) -> (e: RpcError)
    ensures
        e@ == failure(answer@),
{
    match answer {
        Answer::Failed(e) => RpcError::from_ask(e),
        _ => RpcError::Internal("unexpected answer".to_string()),
    }
}

fn fail_node(answer: &Answer) -> (e: RpcError)
    ensures
        e@ == node_failure(answer@),
{
    match answer {
        Answer::Failed(e) => RpcError::from_node_ask(e),
        _ => RpcError::Internal("unexpected answer".to_string()),
    }
}

/// `ping` answers `pong` and asks nothing.
pub open spec fn ping_next() -> StepView<QueryView> {
    StepView::Done(Ok(ValueView::Text("pong"@)))
}

pub fn ping() -> (step: Step<Query>)
    ensures
        step@ == ping_next(),
{
    Step::Done(response("pong".to_string().encode()))
}

/// The targets of the stored log lines, as the persistence layer gives them.
pub open spec fn log_get_targets_next(answers: Seq<AnswerView>) -> StepView<QueryView> {
    if answers.len() == 0 {
        StepView::Ask(QueryView::LogTargets)
    } else {
        match answers[0] {
            AnswerView::LogTargets(targets) => StepView::Done(
                Ok(LogGetTargetsResponse::encoded(targets)),
            ),
            other => StepView::Done(Err(failure(other))),
        }
    }
}

pub fn log_get_targets(answers: &Vec<Answer>) -> (step: Step<Query>)
    ensures
        step@ == log_get_targets_next(contents(answers@)),
{
    if answers.len() == 0 {
        return Step::Ask(Query::LogTargets);
    }
    match &answers[0] {
        Answer::LogTargets(targets) => Step::Done(response(encode_targets(targets))),
        other => Step::Done(Err(fail(other))),
    }
}

/// The log lines that match, as the persistence layer gives them.
pub open spec fn log_get_next(request: LogGetRequestView, answers: Seq<AnswerView>) -> StepView<
    QueryView,
> {
    if answers.len() == 0 {
        StepView::Ask(QueryView::Logs(request))
    } else {
        match answers[0] {
            AnswerView::Logs(logs) => StepView::Done(Ok(LogGetResponse::encoded(logs))),
            other => StepView::Done(Err(failure(other))),
        }
    }
}

pub fn log_get(args: (LogGetRequest,), answers: &Vec<Answer>) -> (step: Step<Query>)
    ensures
        step@ == log_get_next(args.0@, contents(answers@)),
{
    let (request,) = args;
    if answers.len() == 0 {
        return Step::Ask(Query::Logs(request));
    }
    match &answers[0] {
        Answer::Logs(logs) => Step::Done(response(encode_logs(logs))),
        other => Step::Done(Err(fail(other))),
    }
}

/// What a call for a graph comes to once its one question is named: the
/// rows that the persistence layer gives, under `rows`.
pub open spec fn graph_next(question: QueryView, answers: Seq<AnswerView>) -> StepView<QueryView> {
    if answers.len() == 0 {
        StepView::Ask(question)
    } else {
        match answers[0] {
            AnswerView::Rows(rows) => StepView::Done(Ok(encoded_rows(rows))),
            other => StepView::Done(Err(failure(other))),
        }
    }
}

fn graph(question: Query, answers: &Vec<Answer>) -> (step: Step<Query>)
    ensures
        step@ == graph_next(question@, contents(answers@)),
{
    if answers.len() == 0 {
        return Step::Ask(question);
    }
    match &answers[0] {
        Answer::Rows(rows) => Step::Done(response(encode_rows(rows))),
        other => Step::Done(Err(fail(other))),
    }
}

pub fn graph_network_out_all_node(args: (GraphCommonArgs,), answers: &Vec<Answer>) -> (step: Step<
    Query,
>)
    ensures
        step@ == graph_next(QueryView::NetworkOutAll(args.0@), contents(answers@)),
{
    let (graph_args,) = args;
    graph(Query::NetworkOutAll(graph_args), answers)
}

pub fn graph_network_out_all_node_avg(
    args: (GraphCommonArgs,),
    answers: &Vec<Answer>,
) -> (step: Step<Query>)
    ensures
        step@ == graph_next(QueryView::NetworkOutAllAvg(args.0@), contents(answers@)),
{
    let (graph_args,) = args;
    graph(Query::NetworkOutAllAvg(graph_args), answers)
}

pub fn graph_network_out_node_extension(
    args: (NodeName, GraphCommonArgs),
    answers: &Vec<Answer>,
) -> (step: Step<Query>)
    ensures
        step@ == graph_next(
            QueryView::NetworkOutNodeExtension(args.0@, args.1@),
            contents(answers@),
        ),
{
    let (node_name, graph_args) = args;
    graph(Query::NetworkOutNodeExtension(node_name, graph_args), answers)
}

pub fn graph_network_out_node_peer(
    args: (NodeName, GraphCommonArgs),
    answers: &Vec<Answer>,
) -> (step: Step<Query>)
    ensures
        step@ == graph_next(QueryView::NetworkOutNodePeer(args.0@, args.1@), contents(answers@)),
{
    let (node_name, graph_args) = args;
    graph(Query::NetworkOutNodePeer(node_name, graph_args), answers)
}

/// The network overview: first the nodes, then the links, then both as the
/// overview shows them. Either question failing ends the call.
pub open spec fn dashboard_get_network_next(answers: Seq<AnswerView>) -> StepView<QueryView> {
    if answers.len() == 0 {
        StepView::Ask(QueryView::ClientsState)
    } else {
        match answers[0] {
            AnswerView::ClientsState(nodes) => if answers.len() == 1 {
                StepView::Ask(QueryView::Connections)
            } else {
                match answers[1] {
                    AnswerView::Connections(connections) => StepView::Done(
                        Ok(
                            DashboardGetNetworkResponse::encoded(
                                DashboardGetNetworkResponseView { nodes, connections },
                            ),
                        ),
                    ),
                    other => StepView::Done(Err(failure(other))),
                }
            },
            other => StepView::Done(Err(failure(other))),
        }
    }
}

pub fn dashboard_get_network(answers: &Vec<Answer>) -> (step: Step<Query>)
    ensures
        step@ == dashboard_get_network_next(contents(answers@)),
{
    if answers.len() == 0 {
        return Step::Ask(Query::ClientsState);
    }
    let clients_state = match &answers[0] {
        Answer::ClientsState(states) => states,
        other => {
            return Step::Done(Err(fail(other)));
        },
    };
    if answers.len() == 1 {
        return Step::Ask(Query::Connections);
    }
    let connections = match &answers[1] {
        Answer::Connections(links) => links,
        other => {
            return Step::Done(Err(fail(other)));
        },
    };
    let network = DashboardGetNetworkResponse::from_db_state(clients_state, connections);
    Step::Done(response(network.encode()))
}

/// All that is known of one node: first its state, which has to exist, then
/// what it was last started with.
pub open spec fn node_get_info_next(name: Seq<char>, answers: Seq<AnswerView>) -> StepView<
    QueryView,
> {
    if answers.len() == 0 {
        StepView::Ask(QueryView::ClientQueryResult(name))
    } else {
        match answers[0] {
            AnswerView::ClientQueryResult(Some(state)) => if answers.len() == 1 {
                StepView::Ask(QueryView::ClientExtra(name))
            } else {
                match answers[1] {
                    AnswerView::ClientExtra(start_option) => StepView::Done(
                        Ok(
                            NodeGetInfoResponse::encoded(
                                NodeGetInfoResponseView { state, start_option },
                            ),
                        ),
                    ),
                    other => StepView::Done(Err(failure(other))),
                }
            },
            AnswerView::ClientQueryResult(None) => StepView::Done(
                Err(RpcErrorView::EntityNotFound),
            ),
            other => StepView::Done(Err(failure(other))),
        }
    }
}

pub fn node_get_info(args: (String,), answers: &Vec<Answer>) -> (step: Step<Query>)
    ensures
        step@ == node_get_info_next(args.0@, contents(answers@)),
{
    let (name,) = args;
    if answers.len() == 0 {
        return Step::Ask(Query::ClientQueryResult(name));
    }
    let client_query_result = match &answers[0] {
        Answer::ClientQueryResult(Some(state)) => state,
        Answer::ClientQueryResult(None) => {
            return Step::Done(Err(RpcError::EntityNotFound));
        },
        other => {
            return Step::Done(Err(fail(other)));
        },
    };
    if answers.len() == 1 {
        return Step::Ask(Query::ClientExtra(name));
    }
    let extra = match &answers[1] {
        Answer::ClientExtra(extra) => extra,
        other => {
            return Step::Done(Err(fail(other)));
        },
    };
    let info = NodeGetInfoResponse::from_db_state(client_query_result, extra);
    Step::Done(response(info.encode()))
}

/// What a call comes to that first needs a node of the given name to be
/// connected: `found` once the node manager has said that it is,
/// `EntityNotFound` once it has said that it is not.
pub open spec fn with_client(
    name: Seq<char>,
    answers: Seq<AnswerView>,
    found: StepView<QueryView>,
) -> StepView<QueryView> {
    if answers.len() == 0 {
        StepView::Ask(QueryView::Client(name))
    } else {
        match answers[0] {
            AnswerView::Client(true) => found,
            AnswerView::Client(false) => StepView::Done(Err(RpcErrorView::EntityNotFound)),
            other => StepView::Done(Err(failure(other))),
        }
    }
}

/// Starts a node: once the node is known to be connected it is told to
/// start, and once it has done so the persistence layer is told what it was
/// started with, without waiting, and the call ends with nothing to report.
pub open spec fn node_start_next(
    name: Seq<char>,
    request: ShellStartCodeChainRequestView,
    answers: Seq<AnswerView>,
) -> StepView<QueryView> {
    with_client(
        name,
        answers,
        if answers.len() == 1 {
            StepView::Ask(QueryView::ShellStart(name, request))
        } else {
            match answers[1] {
                AnswerView::Done => if answers.len() == 2 {
                    StepView::Tell(QueryView::SaveStartOption(name, request))
                } else {
                    StepView::Done(Ok(ValueView::Null))
                },
                other => StepView::Done(Err(node_failure(other))),
            }
        },
    )
}

pub fn node_start(args: (NodeName, ShellStartCodeChainRequest), answers: &Vec<Answer>) -> (step:
    Step<Query>)
    ensures
        step@ == node_start_next(args.0@, args.1@, contents(answers@)),
{
    let (name, req) = args;
    if answers.len() == 0 {
        return Step::Ask(Query::Client(name));
    }
    match &answers[0] {
        Answer::Client(true) => {},
        Answer::Client(false) => {
            return Step::Done(Err(RpcError::EntityNotFound));
        },
        other => {
            return Step::Done(Err(fail(other)));
        },
    }
    if answers.len() == 1 {
        return Step::Ask(Query::ShellStart(name, req));
    }
    match &answers[1] {
        Answer::Done => {},
        other => {
            return Step::Done(Err(fail_node(other)));
        },
    }
    if answers.len() == 2 {
        return Step::Tell(Query::SaveStartOption(name, req));
    }
    Step::Done(response(Value::Null))
}

/// Stops a node: once the node is known to be connected it is told to stop,
/// and the call ends with nothing to report.
pub open spec fn node_stop_next(name: Seq<char>, answers: Seq<AnswerView>) -> StepView<QueryView> {
    with_client(
        name,
        answers,
        if answers.len() == 1 {
            StepView::Ask(QueryView::ShellStop(name))
        } else {
            match answers[1] {
                AnswerView::Done => StepView::Done(Ok(ValueView::Null)),
                other => StepView::Done(Err(node_failure(other))),
            }
        },
    )
}

pub fn node_stop(args: (String,), answers: &Vec<Answer>) -> (step: Step<Query>)
    ensures
        step@ == node_stop_next(args.0@, contents(answers@)),
{
    let (name,) = args;
    if answers.len() == 0 {
        return Step::Ask(Query::Client(name));
    }
    match &answers[0] {
        Answer::Client(true) => {},
        Answer::Client(false) => {
            return Step::Done(Err(RpcError::EntityNotFound));
        },
        other => {
            return Step::Done(Err(fail(other)));
        },
    }
    if answers.len() == 1 {
        return Step::Ask(Query::ShellStop(name));
    }
    match &answers[1] {
        Answer::Done => Step::Done(response(Value::Null)),
        other => Step::Done(Err(fail_node(other))),
    }
}

/// What a node is restarted with after an update: what it was last started
/// with, and an empty environment and no arguments if nothing is on record.
pub open spec fn previous_start(extra: Option<ClientExtraView>) -> ShellStartCodeChainRequestView {
    match extra {
        Some(e) => ShellStartCodeChainRequestView { env: e.prev_env, args: e.prev_args },
        None => ShellStartCodeChainRequestView { env: Seq::empty(), args: Seq::empty() },
    }
}

/// Updates a node: once the node is known to be connected, the persistence
/// layer is asked what it was last started with, the node is told to replace
/// its program and to start again with that, and the call ends with nothing
/// to report.
pub open spec fn node_update_next(
    name: Seq<char>,
    request: UpdateCodeChainRequestView,
    answers: Seq<AnswerView>,
) -> StepView<QueryView> {
    with_client(
        name,
        answers,
        if answers.len() == 1 {
            StepView::Ask(QueryView::ClientExtra(name))
        } else {
            match answers[1] {
                AnswerView::ClientExtra(extra) => if answers.len() == 2 {
                    StepView::Ask(QueryView::ShellUpdate(name, previous_start(extra), request))
                } else {
                    match answers[2] {
                        AnswerView::Done => StepView::Done(Ok(ValueView::Null)),
                        other => StepView::Done(Err(node_failure(other))),
                    }
                },
                other => StepView::Done(Err(failure(other))),
            }
        },
    )
}

pub fn node_update(args: (NodeName, UpdateCodeChainRequest), answers: &Vec<Answer>) -> (step: Step<
    Query,
>)
    ensures
        step@ == node_update_next(args.0@, args.1@, contents(answers@)),
{
    let (name, req) = args;
    if answers.len() == 0 {
        return Step::Ask(Query::Client(name));
    }
    match &answers[0] {
        Answer::Client(true) => {},
        Answer::Client(false) => {
            return Step::Done(Err(RpcError::EntityNotFound));
        },
        other => {
            return Step::Done(Err(fail(other)));
        },
    }
    if answers.len() == 1 {
        return Step::Ask(Query::ClientExtra(name));
    }
    let extra = match &answers[1] {
        Answer::ClientExtra(extra) => extra,
        other => {
            return Step::Done(Err(fail(other)));
        },
    };
    if answers.len() == 2 {
        let previous = match extra {
            Some(e) => ShellStartCodeChainRequest {
                env: e.prev_env.clone(),
                args: e.prev_args.clone(),
            },
            None => ShellStartCodeChainRequest { env: String::new(), args: String::new() },
        };
        return Step::Ask(Query::ShellUpdate(name, previous, req));
    }
    match &answers[2] {
        Answer::Done => Step::Done(response(Value::Null)),
        other => Step::Done(Err(fail_node(other))),
    }
}

/// The calls that the dashboard can make.
#[derive(Debug, PartialEq, Eq, Clone, Copy)]
pub enum Method {
    Ping,
    NodeGetInfo,
    DashboardGetNetwork,
    NodeStart,
    NodeStop,
    NodeUpdate,
    LogGetTargets,
    LogGet,
    GraphNetworkOutAllNode,
    GraphNetworkOutAllNodeAvg,
    GraphNetworkOutNodeExtension,
    GraphNetworkOutNodePeer,
}

impl Route for Method {
    type Query = Query;

    type Answer = Answer;

    open spec fn accepts(&self, params: Seq<ValueView>) -> bool {
        match self {
            Method::Ping | Method::DashboardGetNetwork | Method::LogGetTargets => no_arguments(
                params,
            ),
            Method::NodeGetInfo | Method::NodeStop => one_argument::<String>(params) is Some,
            Method::NodeStart => two_arguments::<NodeName, ShellStartCodeChainRequest>(
                params,
            ) is Some,
            Method::NodeUpdate => two_arguments::<NodeName, UpdateCodeChainRequest>(
                params,
            ) is Some,
            Method::LogGet => one_argument::<LogGetRequest>(params) is Some,
            Method::GraphNetworkOutAllNode | Method::GraphNetworkOutAllNodeAvg => one_argument::<
                GraphCommonArgs,
            >(params) is Some,
            Method::GraphNetworkOutNodeExtension
            | Method::GraphNetworkOutNodePeer => two_arguments::<NodeName, GraphCommonArgs>(
                params,
            ) is Some,
        }
    }

    open spec fn next(&self, params: Seq<ValueView>, answers: Seq<AnswerView>) -> StepView<
        QueryView,
    > {
        if !self.accepts(params) {
            StepView::Done(Err(RpcErrorView::InvalidParams))
        } else {
            match self {
                Method::Ping => ping_next(),
                Method::NodeGetInfo => node_get_info_next(
                    one_argument::<String>(params)->Some_0,
                    answers,
                ),
                Method::DashboardGetNetwork => dashboard_get_network_next(answers),
                Method::NodeStart => {
                    let args = two_arguments::<NodeName, ShellStartCodeChainRequest>(
                        params,
                    )->Some_0;
                    node_start_next(args.0, args.1, answers)
                },
                Method::NodeStop => node_stop_next(one_argument::<String>(params)->Some_0, answers),
                Method::NodeUpdate => {
                    let args = two_arguments::<NodeName, UpdateCodeChainRequest>(params)->Some_0;
                    node_update_next(args.0, args.1, answers)
                },
                Method::LogGetTargets => log_get_targets_next(answers),
                Method::LogGet => log_get_next(
                    one_argument::<LogGetRequest>(params)->Some_0,
                    answers,
                ),
                Method::GraphNetworkOutAllNode => graph_next(
                    QueryView::NetworkOutAll(one_argument::<GraphCommonArgs>(params)->Some_0),
                    answers,
                ),
                Method::GraphNetworkOutAllNodeAvg => graph_next(
                    QueryView::NetworkOutAllAvg(one_argument::<GraphCommonArgs>(params)->Some_0),
                    answers,
                ),
                Method::GraphNetworkOutNodeExtension => {
                    let args = two_arguments::<NodeName, GraphCommonArgs>(params)->Some_0;
                    graph_next(QueryView::NetworkOutNodeExtension(args.0, args.1), answers)
                },
                Method::GraphNetworkOutNodePeer => {
                    let args = two_arguments::<NodeName, GraphCommonArgs>(params)->Some_0;
                    graph_next(QueryView::NetworkOutNodePeer(args.0, args.1), answers)
                },
            }
        }
    }

    proof fn rejects_what_it_does_not_accept(
        &self,
        params: Seq<ValueView>,
        answers: Seq<AnswerView>,
    ) {
    }

    fn run(&self, params: &Vec<Value>, answers: &Vec<Answer>) -> (step: Step<Query>) {
        match self {
            Method::Ping => {
                if decode_none(params) {
                    ping()
                } else {
                    Step::Done(Err(RpcError::InvalidParams))
                }
            },
            Method::NodeGetInfo => match decode_one::<String>(params) {
                Some(name) => node_get_info((name,), answers),
                None => Step::Done(Err(RpcError::InvalidParams)),
            },
            Method::DashboardGetNetwork => {
                if decode_none(params) {
                    dashboard_get_network(answers)
                } else {
                    Step::Done(Err(RpcError::InvalidParams))
                }
            },
            Method::NodeStart => match decode_two::<NodeName, ShellStartCodeChainRequest>(params) {
                Some(args) => node_start(args, answers),
                None => Step::Done(Err(RpcError::InvalidParams)),
            },
            Method::NodeStop => match decode_one::<String>(params) {
                Some(name) => node_stop((name,), answers),
                None => Step::Done(Err(RpcError::InvalidParams)),
            },
            Method::NodeUpdate => match decode_two::<NodeName, UpdateCodeChainRequest>(params) {
                Some(args) => node_update(args, answers),
                None => Step::Done(Err(RpcError::InvalidParams)),
            },
            Method::LogGetTargets => {
                if decode_none(params) {
                    log_get_targets(answers)
                } else {
                    Step::Done(Err(RpcError::InvalidParams))
                }
            },
            Method::LogGet => match decode_one::<LogGetRequest>(params) {
                Some(request) => log_get((request,), answers),
                None => Step::Done(Err(RpcError::InvalidParams)),
            },
            Method::GraphNetworkOutAllNode => match decode_one::<GraphCommonArgs>(params) {
                Some(graph_args) => graph_network_out_all_node((graph_args,), answers),
                None => Step::Done(Err(RpcError::InvalidParams)),
            },
            Method::GraphNetworkOutAllNodeAvg => match decode_one::<GraphCommonArgs>(params) {
                Some(graph_args) => graph_network_out_all_node_avg((graph_args,), answers),
                None => Step::Done(Err(RpcError::InvalidParams)),
            },
            Method::GraphNetworkOutNodeExtension => match decode_two::<NodeName, GraphCommonArgs>(
                params,
            ) {
                Some(args) => graph_network_out_node_extension(args, answers),
                None => Step::Done(Err(RpcError::InvalidParams)),
            },
            Method::GraphNetworkOutNodePeer => match decode_two::<NodeName, GraphCommonArgs>(
                params,
            ) {
                Some(args) => graph_network_out_node_peer(args, answers),
                None => Step::Done(Err(RpcError::InvalidParams)),
            },
        }
    }
}

/// One route of the dashboard's table.
pub open spec fn route(name: Seq<char>, handler: Method) -> EntryView<Method> {
    EntryView { name, handler }
}

/// The dashboard's routes, in the order in which they are registered.
pub open spec fn routing() -> Seq<EntryView<Method>> {
    seq![
        route("ping"@, Method::Ping),
        route("node_getInfo"@, Method::NodeGetInfo),
        route("dashboard_getNetwork"@, Method::DashboardGetNetwork),
        route("node_start"@, Method::NodeStart),
        route("node_stop"@, Method::NodeStop),
        route("node_update"@, Method::NodeUpdate),
        route("log_getTargets"@, Method::LogGetTargets),
        route("log_get"@, Method::LogGet),
        route("graph_network_out_all_node"@, Method::GraphNetworkOutAllNode),
        route("graph_network_out_all_node_avg"@, Method::GraphNetworkOutAllNodeAvg),
        route("graph_network_out_node_extension"@, Method::GraphNetworkOutNodeExtension),
        route("graph_network_out_node_peer"@, Method::GraphNetworkOutNodePeer),
    ]
}

/// The names of the dashboard's routes differ from one another.
pub proof fn routing_names_differ()
    ensures
        distinct_names(routing()),
{
    reveal_strlit("ping");
    reveal_strlit("node_getInfo");
    reveal_strlit("dashboard_getNetwork");
    reveal_strlit("node_start");
    reveal_strlit("node_stop");
    reveal_strlit("node_update");
    reveal_strlit("log_getTargets");
    reveal_strlit("log_get");
    reveal_strlit("graph_network_out_all_node");
    reveal_strlit("graph_network_out_all_node_avg");
    reveal_strlit("graph_network_out_node_extension");
    reveal_strlit("graph_network_out_node_peer");
    let table = routing();
    assert forall|i: int, j: int|
        0 <= i < table.len() && 0 <= j < table.len() && table[i].name == table[j].name implies i
        == j by {
        assert(table[i].name.len() == table[j].name.len());
    }
}

/// Registers the dashboard's routes. None of their names may be in the
/// table already.
pub fn add_routing(router: &mut Router<Method>)
    requires
        forall|i: int|
            0 <= i < routing().len() ==> route_of(old(router)@, #[trigger] routing()[i].name)
                is None,
    ensures
        final(router)@ == old(router)@ + routing(),
        old(router).well_formed() ==> final(router).well_formed(),
{
    let ghost before = router@;
    proof {
        routing_names_differ();
    }
    register(router, "ping", Method::Ping, Ghost(before), Ghost(0));
    register(router, "node_getInfo", Method::NodeGetInfo, Ghost(before), Ghost(1));
    register(router, "dashboard_getNetwork", Method::DashboardGetNetwork, Ghost(before), Ghost(2));
    register(router, "node_start", Method::NodeStart, Ghost(before), Ghost(3));
    register(router, "node_stop", Method::NodeStop, Ghost(before), Ghost(4));
    register(router, "node_update", Method::NodeUpdate, Ghost(before), Ghost(5));
    register(router, "log_getTargets", Method::LogGetTargets, Ghost(before), Ghost(6));
    register(router, "log_get", Method::LogGet, Ghost(before), Ghost(7));
    register(
        router,
        "graph_network_out_all_node",
        Method::GraphNetworkOutAllNode,
        Ghost(before),
        Ghost(8),
    );
    register(
        router,
        "graph_network_out_all_node_avg",
        Method::GraphNetworkOutAllNodeAvg,
        Ghost(before),
        Ghost(9),
    );
    register(
        router,
        "graph_network_out_node_extension",
        Method::GraphNetworkOutNodeExtension,
        Ghost(before),
        Ghost(10),
    );
    register(
        router,
        "graph_network_out_node_peer",
        Method::GraphNetworkOutNodePeer,
        Ghost(before),
        Ghost(11),
    );
    assert(routing().subrange(0, 12) =~= routing());
}

/// Registers the route that stands at place `k` of the dashboard's routes,
/// in a table that holds those before it on top of `before`.
fn register(
    router: &mut Router<Method>,
    name: &str,
    handler: Method,
    Ghost(before): Ghost<Seq<EntryView<Method>>>,
    Ghost(k): Ghost<int>,
)
    requires
        0 <= k < routing().len(),
        routing()[k] == route(name@, handler),
        distinct_names(routing()),
        old(router)@ == before + routing().subrange(0, k),
        forall|i: int|
            0 <= i < routing().len() ==> route_of(before, #[trigger] routing()[i].name) is None,
    ensures
        final(router)@ == before + routing().subrange(0, k + 1),
        old(router).well_formed() ==> final(router).well_formed(),
{
    proof {
        let table = router@;
        index_of_is_first(table, name@);
        index_of_is_first(before, name@);
        if index_of(table, name@) is Some {
            let i = index_of(table, name@)->Some_0;
            if i < before.len() {
                assert(table[i] == before[i]);
            } else {
                assert(table[i] == routing()[i - before.len()]);
            }
        }
    }
    router.add_route(name, handler);
    assert(router@ =~= before + routing().subrange(0, k + 1));
}

/// Every call ends: whatever the method and the parameters, a handler that
/// has had three answers asks nothing more and sends nothing more.
pub proof fn every_call_ends_within_three_answers(
    method: Method,
    params: Seq<ValueView>,
    answers: Seq<AnswerView>,
)
    requires
        answers.len() >= 3,
    ensures
        method.next(params, answers) is Done,
{
}

/// The actors that a handler's questions go to.
#[derive(Debug, PartialEq, Eq, Clone, Copy)]
pub enum Collaborator {
    Persistence,
    NodeManager,
}

impl QueryView {
    /// Who a question or a message is meant for: the node manager for the
    /// look-up of a node and for what a node is told to do, the persistence
    /// layer for everything else.
    pub open spec fn collaborator(self) -> Collaborator {
        match self {
            QueryView::Client(_)
            | QueryView::ShellStart(_, _)
            | QueryView::ShellStop(_)
            | QueryView::ShellUpdate(_, _, _) => Collaborator::NodeManager,
            _ => Collaborator::Persistence,
        }
    }

    /// Whether the persistence layer changes what it keeps on this message.
    pub open spec fn writes(self) -> bool {
        self is SaveStartOption
    }
}

/// Who `query` is meant for.
pub fn collaborator(query: &Query) -> (c: Collaborator)
    ensures
        c == query@.collaborator(),
{
    match query {
        Query::Client(_) | Query::ShellStart(_, _) | Query::ShellStop(_) | Query::ShellUpdate(
            _,
            _,
            _,
        ) => Collaborator::NodeManager,
        _ => Collaborator::Persistence,
    }
}

/// What a step asks or tells a collaborator, if anything.
pub open spec fn question_of(step: StepView<QueryView>) -> Option<QueryView> {
    match step {
        StepView::Ask(query) => Some(query),
        StepView::Tell(query) => Some(query),
        StepView::Done(_) => None,
    }
}

/// The calls that read never reach the node manager and never write: of the
/// twelve methods only `node_start`, `node_stop` and `node_update` put a
/// question to the node manager, and only `node_start` has the persistence
/// layer keep anything.
pub proof fn reading_calls_touch_no_node(
    method: Method,
    params: Seq<ValueView>,
    answers: Seq<AnswerView>,
)
    ensures
        match question_of(method.next(params, answers)) {
            Some(query) => {
                &&& query.collaborator() is NodeManager ==> method is NodeStart || method
                    is NodeStop || method is NodeUpdate
                &&& query.writes() ==> method is NodeStart
            },
            None => true,
        },
{
}

/// What `node_update` has a node restart with is one stored start option
/// as the persistence layer gave it in one answer, environment and
/// arguments together, or nothing at all: never parts of two.
pub proof fn node_update_restarts_with_one_start_option(
    name: Seq<char>,
    request: UpdateCodeChainRequestView,
    extra: Option<ClientExtraView>,
)
    ensures
        node_update_next(
            name,
            request,
            seq![AnswerView::Client(true), AnswerView::ClientExtra(extra)],
        ) == StepView::Ask(
            QueryView::ShellUpdate(
                name,
                match extra {
                    Some(stored) => ShellStartCodeChainRequestView {
                        env: stored.prev_env,
                        args: stored.prev_args,
                    },
                    None => ShellStartCodeChainRequestView {
                        env: Seq::empty(),
                        args: Seq::empty(),
                    },
                },
                request,
            ),
        ),
{
}

/// The overview shows one node for each state that the persistence layer
/// gave, in the order in which it gave them.
pub proof fn dashboard_get_network_shows_every_node(
    nodes: Seq<ClientQueryResultView>,
    connections: Seq<ConnectionView>,
)
    ensures
        dashboard_get_network_next(
            seq![AnswerView::ClientsState(nodes), AnswerView::Connections(connections)],
        ) == StepView::<QueryView>::Done(
            Ok(
                DashboardGetNetworkResponse::encoded(
                    DashboardGetNetworkResponseView { nodes, connections },
                ),
            ),
        ),
        DashboardGetNetworkResponse::encoded(
            DashboardGetNetworkResponseView { nodes, connections },
        ).field("nodes"@) matches Some(ValueView::List(shown)) && shown.len() == nodes.len(),
{
    reveal_strlit("nodes");
    reveal_strlit("connections");
    let fields = DashboardGetNetworkResponse::encoded(
        DashboardGetNetworkResponseView { nodes, connections },
    )->Record_0;
    crate::value::position_is_first(fields, "nodes"@);
}

} // verus!
