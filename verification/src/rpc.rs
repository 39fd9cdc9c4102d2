//! What a call can come to, a raw result or one of a closed set of errors,
//! and the response that carries either back to the caller.

use crate::ask::AskError;
use crate::value::{Value, ValueView};
use vstd::prelude::*;

verus! {

/// No route is registered under the method's name.
pub const METHOD_NOT_FOUND: i64 = -32601;

/// The parameters do not have the arity or the shape that the route declares.
pub const INVALID_PARAMS: i64 = -32602;

/// A collaborator failed in a way that has no code of its own.
pub const INTERNAL_ERROR: i64 = -32603;

/// The call names something that does not exist, such as an unknown node.
pub const ENTITY_NOT_FOUND: i64 = -1;

/// The persistence layer answered with an error of its own.
pub const PERSISTENCE_FAILED: i64 = -2;

/// A node answered a control operation with an error of its own.
pub const NODE_FAILED: i64 = -3;

/// An error that a collaborator chose to reply with.
#[derive(Debug, PartialEq, Eq)]
pub enum DomainError {
    Persistence(String),
    Node(String),
}

/// The mathematical content of a [`DomainError`].
pub enum DomainErrorView {
    Persistence(Seq<char>),
    Node(Seq<char>),
}

impl View for DomainError {
    type V = DomainErrorView;

    open spec fn view(&self) -> DomainErrorView {
        match self {
            DomainError::Persistence(m) => DomainErrorView::Persistence(m@),
            DomainError::Node(m) => DomainErrorView::Node(m@),
        }
    }
}

/// Every way in which a call can fail.
#[derive(Debug, PartialEq, Eq)]
pub enum RpcError {
    MethodNotFound,
    InvalidParams,
    EntityNotFound,
    Internal(String),
    Persistence(String),
    Node(String),
}

/// The mathematical content of an [`RpcError`].
pub enum RpcErrorView {
    MethodNotFound,
    InvalidParams,
    EntityNotFound,
    Internal(Seq<char>),
    Persistence(Seq<char>),
    Node(Seq<char>),
}

impl View for RpcError {
    type V = RpcErrorView;

    open spec fn view(&self) -> RpcErrorView {
        match self {
            RpcError::MethodNotFound => RpcErrorView::MethodNotFound,
            RpcError::InvalidParams => RpcErrorView::InvalidParams,
            RpcError::EntityNotFound => RpcErrorView::EntityNotFound,
            RpcError::Internal(m) => RpcErrorView::Internal(m@),
            RpcError::Persistence(m) => RpcErrorView::Persistence(m@),
            RpcError::Node(m) => RpcErrorView::Node(m@),
        }
    }
}

impl RpcErrorView {
    /// The code that stands for this kind of error on the wire.
    pub open spec fn code(self) -> int {
        match self {
            RpcErrorView::MethodNotFound => METHOD_NOT_FOUND as int,
            RpcErrorView::InvalidParams => INVALID_PARAMS as int,
            RpcErrorView::EntityNotFound => ENTITY_NOT_FOUND as int,
            RpcErrorView::Internal(_) => INTERNAL_ERROR as int,
            RpcErrorView::Persistence(_) => PERSISTENCE_FAILED as int,
            RpcErrorView::Node(_) => NODE_FAILED as int,
        }
    }

    /// The text that goes with the code.
    pub open spec fn message(self) -> Seq<char> {
        match self {
            RpcErrorView::MethodNotFound => "Method not found"@,
            RpcErrorView::InvalidParams => "Invalid params"@,
            RpcErrorView::EntityNotFound => "Entity not found"@,
            RpcErrorView::Internal(m) => m,
            RpcErrorView::Persistence(m) => m,
            RpcErrorView::Node(m) => m,
        }
    }

    /// The error that a failed `ask` is reported as: a collaborator's own
    /// error keeps its kind and text, a collaborator that is gone or late is
    /// an internal failure.
    pub open spec fn of_ask(e: AskError<DomainErrorView>) -> RpcErrorView {
        match e {
            AskError::ActorGone => RpcErrorView::Internal("actor gone"@),
            AskError::Timeout => RpcErrorView::Internal("no reply in time"@),
            AskError::Domain(DomainErrorView::Persistence(m)) => RpcErrorView::Persistence(m),
            AskError::Domain(DomainErrorView::Node(m)) => RpcErrorView::Node(m),
        }
    }

    /// As `of_ask`, for a question that was put to one node's own actor:
    /// that the actor is gone means that the node is no longer there.
    pub open spec fn of_node_ask(e: AskError<DomainErrorView>) -> RpcErrorView {
        match e {
            AskError::ActorGone => RpcErrorView::EntityNotFound,
            _ => Self::of_ask(e),
        }
    }
}

impl RpcError {
    pub fn code(&self) -> (c: i64)
        ensures
            c == self@.code(),
    {
        match self {
            RpcError::MethodNotFound => METHOD_NOT_FOUND,
            RpcError::InvalidParams => INVALID_PARAMS,
            RpcError::EntityNotFound => ENTITY_NOT_FOUND,
            RpcError::Internal(_) => INTERNAL_ERROR,
            RpcError::Persistence(_) => PERSISTENCE_FAILED,
            RpcError::Node(_) => NODE_FAILED,
        }
    }

    pub fn message(&self) -> (m: String)
        ensures
            m@ == self@.message(),
    {
        match self {
            RpcError::MethodNotFound => "Method not found".to_string(),
            RpcError::InvalidParams => "Invalid params".to_string(),
            RpcError::EntityNotFound => "Entity not found".to_string(),
            RpcError::Internal(m) => m.clone(),
            RpcError::Persistence(m) => m.clone(),
            RpcError::Node(m) => m.clone(),
        }
    }

    pub fn from_ask(e: &AskError<DomainError>) -> (r: RpcError)
        ensures
            r@ == RpcErrorView::of_ask(e@),
    {
        match e {
            AskError::ActorGone => RpcError::Internal("actor gone".to_string()),
            AskError::Timeout => RpcError::Internal("no reply in time".to_string()),
            AskError::Domain(DomainError::Persistence(m)) => RpcError::Persistence(m.clone()),
            AskError::Domain(DomainError::Node(m)) => RpcError::Node(m.clone()),
        }
    }

    pub fn from_node_ask(e: &AskError<DomainError>) -> (r: RpcError)
        ensures
            r@ == RpcErrorView::of_node_ask(e@),
    {
        match e {
            AskError::ActorGone => RpcError::EntityNotFound,
            _ => RpcError::from_ask(e),
        }
    }
}

/// How a handler's work on one call ends.
pub type RpcResult = Result<Value, RpcError>;

/// What goes back to the caller: exactly one of a value and an error.
#[derive(Debug, PartialEq, Eq)]
pub enum RpcResponse {
    Success(Value),
    Error { code: i64, message: String },
}

/// The mathematical content of an [`RpcResponse`].
pub enum RpcResponseView {
    Success(ValueView),
    Error { code: int, message: Seq<char> },
}

impl View for RpcResponse {
    type V = RpcResponseView;

    open spec fn view(&self) -> RpcResponseView {
        match self {
            RpcResponse::Success(v) => RpcResponseView::Success(v@),
            RpcResponse::Error { code, message } => RpcResponseView::Error {
                code: *code as int,
                message: message@,
            },
        }
    }
}

/// The content of a handler's outcome.
pub open spec fn result_view(outcome: RpcResult) -> Result<ValueView, RpcErrorView> {
    match outcome {
        Ok(v) => Ok(v@),
        Err(e) => Err(e@),
    }
}

/// The response that an outcome is encoded as: a value goes back as it is,
/// an error as its code and text.
pub open spec fn encoded(outcome: Result<ValueView, RpcErrorView>) -> RpcResponseView {
    match outcome {
        Ok(v) => RpcResponseView::Success(v),
        Err(e) => RpcResponseView::Error { code: e.code(), message: e.message() },
    }
}

/// Wraps a handler's value as the outcome of a call that succeeded.
pub fn response(value: Value) -> (r: RpcResult)
    ensures
        r == Ok::<Value, RpcError>(value),
{
    Ok(value)
}

/// Encodes the outcome of a call.
pub fn encode(outcome: RpcResult) -> (r: RpcResponse)
    ensures
        r@ == encoded(result_view(outcome)),
{
    match outcome {
        Ok(v) => RpcResponse::Success(v),
        Err(e) => RpcResponse::Error { code: e.code(), message: e.message() },
    }
}

} // verus!
