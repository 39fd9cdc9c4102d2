//! The route table: handlers of any shape, kept under their method names
//! behind one way of running them.

use crate::rpc::{encode, encoded, RpcError, RpcErrorView, RpcResponse, RpcResponseView, RpcResult};
use crate::value::{contents, Value, ValueView};
use vstd::prelude::*;

verus! {

/// One call as it arrives: a method name and the raw parameters in their
/// order, neither their number nor their types checked.
#[derive(Debug, PartialEq, Eq)]
pub struct Request {
    pub method: String,
    pub params: Vec<Value>,
}

/// What a handler does next with a call.
///
/// A handler never touches a collaborator itself. It says what it wants to
/// know, and is run again once the answer has been added to those it was
/// given before.
#[derive(Debug, PartialEq, Eq)]
pub enum Step<Q> {
    /// The call is over, with this outcome.
    Done(RpcResult),
    /// The handler needs the answer to this question before it can go on.
    Ask(Q),
    /// The handler has this message sent without waiting for a reply.
    Tell(Q),
}

/// The mathematical content of a [`Step`].
pub enum StepView<Q> {
    Done(Result<ValueView, RpcErrorView>),
    Ask(Q),
    Tell(Q),
}

impl<Q: View> View for Step<Q> {
    type V = StepView<Q::V>;

    open spec fn view(&self) -> StepView<Q::V> {
        match self {
            Step::Done(Ok(v)) => StepView::Done(Ok(v@)),
            Step::Done(Err(e)) => StepView::Done(Err(e@)),
            Step::Ask(q) => StepView::Ask(q@),
            Step::Tell(q) => StepView::Tell(q@),
        }
    }
}

/// A handler as the router sees it: something that takes raw parameters and
/// the answers that its questions have had so far, and says what comes next.
pub trait Route {
    /// What the handler may ask of its collaborators.
    type Query: View;

    /// What a collaborator may answer.
    type Answer: View;

    /// Whether `params` has the arity and the shape that the handler declares.
    spec fn accepts(&self, params: Seq<ValueView>) -> bool;

    /// What the handler does with `params` after `answers`.
    spec fn next(
        &self,
        params: Seq<ValueView>,
        answers: Seq<<Self::Answer as View>::V>,
    ) -> StepView<<Self::Query as View>::V>;

    /// Parameters that the handler does not accept end the call with
    /// `InvalidParams` before anything is asked or sent, whatever `answers`
    /// holds.
    proof fn rejects_what_it_does_not_accept(
        &self,
        params: Seq<ValueView>,
        answers: Seq<<Self::Answer as View>::V>,
    )
        requires
            !self.accepts(params),
        ensures
            self.next(params, answers) == StepView::<<Self::Query as View>::V>::Done(
                Err(RpcErrorView::InvalidParams),
            ),
    ;

    fn run(&self, params: &Vec<Value>, answers: &Vec<Self::Answer>) -> (step: Step<Self::Query>)
        ensures
            step@ == self.next(contents(params@), contents(answers@)),
    ;
}

/// What the router hands back for one run of a call.
#[derive(Debug, PartialEq, Eq)]
pub enum Dispatch<Q> {
    /// The response to give to the caller.
    Respond(RpcResponse),
    /// A question to put to a collaborator before the call is run again.
    Ask(Q),
    /// A message to send to a collaborator before the call is run again.
    Tell(Q),
}

/// The mathematical content of a [`Dispatch`].
pub enum DispatchView<Q> {
    Respond(RpcResponseView),
    Ask(Q),
    Tell(Q),
}

impl<Q: View> View for Dispatch<Q> {
    type V = DispatchView<Q::V>;

    open spec fn view(&self) -> DispatchView<Q::V> {
        match self {
            Dispatch::Respond(r) => DispatchView::Respond(r@),
            Dispatch::Ask(q) => DispatchView::Ask(q@),
            Dispatch::Tell(q) => DispatchView::Tell(q@),
        }
    }
}

/// One entry of the table.
pub struct Entry<H> {
    name: String,
    handler: H,
}

/// The mathematical content of an entry.
pub struct EntryView<H> {
    pub name: Seq<char>,
    pub handler: H,
}

/// A table of handlers by method name. A name is registered at most once,
/// and an entry never changes once it is in the table.
pub struct Router<H> {
    entries: Vec<Entry<H>>,
}

/// The index of the first entry called `name`, if there is one.
pub open spec fn index_of<H>(table: Seq<EntryView<H>>, name: Seq<char>) -> Option<int>
    decreases table.len(),
{
    if table.len() == 0 {
        None
    } else if table.last().name == name && index_of(table.drop_last(), name) is None {
        Some(table.len() - 1)
    } else {
        index_of(table.drop_last(), name)
    }
}

/// The handler registered as `name`.
pub open spec fn route_of<H>(table: Seq<EntryView<H>>, name: Seq<char>) -> Option<H> {
    match index_of(table, name) {
        Some(i) => Some(table[i].handler),
        None => None,
    }
}

/// `index_of` finds an entry exactly when there is one of that name, and
/// then the first.
pub proof fn index_of_is_first<H>(table: Seq<EntryView<H>>, name: Seq<char>)
    ensures
        match index_of(table, name) {
            Some(i) => 0 <= i < table.len() && table[i].name == name && forall|j: int|
                0 <= j < i ==> table[j].name != name,
            None => forall|j: int| 0 <= j < table.len() ==> table[j].name != name,
        },
    decreases table.len(),
{
    if table.len() > 0 {
        let front = table.drop_last();
        index_of_is_first(front, name);
        assert forall|j: int| 0 <= j < front.len() implies front[j] == table[j] by {}
    }
}

/// Looking a name up in a table with one more entry at its end: the entries
/// that were there still win, and the new entry answers to its own name.
pub proof fn index_of_push<H>(table: Seq<EntryView<H>>, entry: EntryView<H>, name: Seq<char>)
    ensures
        index_of(table.push(entry), name) == match index_of(table, name) {
            Some(i) => Some(i),
            None => if entry.name == name {
                Some(table.len() as int)
            } else {
                None
            },
        },
{
    assert(table.push(entry).drop_last() =~= table);
}

/// No two entries share a name.
pub open spec fn distinct_names<H>(table: Seq<EntryView<H>>) -> bool {
    forall|i: int, j: int|
        0 <= i < table.len() && 0 <= j < table.len() && table[i].name == table[j].name ==> i == j
}

/// How the outcome of a handler's step goes back from the router.
pub open spec fn dispatched<Q>(step: StepView<Q>) -> DispatchView<Q> {
    match step {
        StepView::Done(outcome) => DispatchView::Respond(encoded(outcome)),
        StepView::Ask(q) => DispatchView::Ask(q),
        StepView::Tell(q) => DispatchView::Tell(q),
    }
}

/// What a table makes of a call to `method` with `params` after `answers`.
pub open spec fn dispatch_of<H: Route>(
    table: Seq<EntryView<H>>,
    method: Seq<char>,
    params: Seq<ValueView>,
    answers: Seq<<H::Answer as View>::V>,
) -> DispatchView<<H::Query as View>::V> {
    match route_of(table, method) {
        None => DispatchView::Respond(encoded(Err(RpcErrorView::MethodNotFound))),
        Some(handler) => dispatched(handler.next(params, answers)),
    }
}

/// A call to a method that no entry is registered for is answered with
/// `MethodNotFound`, whatever its parameters and whatever has been answered
/// so far: no handler is run, and nothing is asked or sent.
pub proof fn unregistered_method_is_not_found<H: Route>(
    table: Seq<EntryView<H>>,
    method: Seq<char>,
    params: Seq<ValueView>,
    answers: Seq<<H::Answer as View>::V>,
)
    requires
        forall|i: int| 0 <= i < table.len() ==> table[i].name != method,
    ensures
        dispatch_of(table, method, params, answers) == DispatchView::<
            <H::Query as View>::V,
        >::Respond(
            RpcResponseView::Error {
                code: crate::rpc::METHOD_NOT_FOUND as int,
                message: "Method not found"@,
            },
        ),
{
    index_of_is_first(table, method);
}

/// A call whose parameters the handler of its method does not accept is
/// answered with `InvalidParams`, whatever has been answered so far. In
/// particular it is so answered at once: nothing is asked of a collaborator
/// and nothing is sent to one.
pub proof fn unaccepted_params_are_invalid<H: Route>(
    table: Seq<EntryView<H>>,
    method: Seq<char>,
    params: Seq<ValueView>,
    answers: Seq<<H::Answer as View>::V>,
)
    requires
        route_of(table, method) is Some,
        !route_of(table, method)->Some_0.accepts(params),
    ensures
        dispatch_of(table, method, params, answers) == DispatchView::<
            <H::Query as View>::V,
        >::Respond(
            RpcResponseView::Error {
                code: crate::rpc::INVALID_PARAMS as int,
                message: "Invalid params"@,
            },
        ),
{
    route_of(table, method)->Some_0.rejects_what_it_does_not_accept(params, answers);
}

/// In a table whose names differ from one another, a call to the name of an
/// entry is run by that entry's handler.
pub proof fn registered_method_is_run<H: Route>(
    table: Seq<EntryView<H>>,
    k: int,
    params: Seq<ValueView>,
    answers: Seq<<H::Answer as View>::V>,
)
    requires
        0 <= k < table.len(),
        distinct_names(table),
    ensures
        dispatch_of(table, table[k].name, params, answers) == dispatched(
            table[k].handler.next(params, answers),
        ),
{
    index_of_is_first(table, table[k].name);
}

impl<H> View for Router<H> {
    type V = Seq<EntryView<H>>;

    closed spec fn view(&self) -> Seq<EntryView<H>> {
        Seq::new(
            self.entries@.len(),
            |i: int| EntryView { name: self.entries@[i].name@, handler: self.entries@[i].handler },
        )
    }
}

impl<H> Router<H> {
    /// No name is registered twice.
    pub open spec fn well_formed(&self) -> bool {
        distinct_names(self@)
    }

    /// An empty table.
    pub fn new() -> (router: Self)
        ensures
            router@ == Seq::<EntryView<H>>::empty(),
            router.well_formed(),
    {
        let router = Router { entries: Vec::new() };
        assert(router@ =~= Seq::<EntryView<H>>::empty());
        router
    }

    /// How many routes are registered.
    pub fn len(&self) -> (n: usize)
        ensures
            n == self@.len(),
    {
        self.entries.len()
    }

    fn position(&self, method: &str) -> (r: Option<usize>)
        ensures
            match r {
                Some(i) => index_of(self@, method@) == Some(i as int) && i < self@.len(),
                None => index_of(self@, method@) is None,
            },
    {
        proof {
            index_of_is_first(self@, method@);
        }
        let wanted = method.to_string();
        let mut i: usize = 0;
        while i < self.entries.len()
            invariant
                i <= self.entries.len(),
                wanted@ == method@,
                self@.len() == self.entries.len(),
                forall|j: int| 0 <= j < i ==> self@[j].name != method@,
                match index_of(self@, method@) {
                    Some(k) => 0 <= k < self@.len() && self@[k].name == method@ && forall|j: int|
                        0 <= j < k ==> self@[j].name != method@,
                    None => forall|j: int| 0 <= j < self@.len() ==> self@[j].name != method@,
                },
            decreases self.entries.len() - i,
        {
            assert(self@[i as int].name == self.entries@[i as int].name@);
            if self.entries[i].name == wanted {
                return Some(i);
            }
            i += 1;
        }
        None
    }

    /// Whether a route is registered as `method`.
    pub fn has_route(&self, method: &str) -> (b: bool)
        ensures
            b == route_of(self@, method@).is_some(),
    {
        self.position(method).is_some()
    }

    /// The handler registered as `method`.
    pub fn route(&self, method: &str) -> (r: Option<&H>)
        ensures
            match r {
                Some(h) => route_of(self@, method@) == Some(*h),
                None => route_of(self@, method@) is None,
            },
    {
        match self.position(method) {
            Some(i) => Some(&self.entries[i].handler),
            None => None,
        }
    }

    /// Registers `handler` as `method`. To register a name twice is a
    /// mistake in the program, not something that can happen at run time:
    /// the name must be new to the table.
    pub fn add_route(&mut self, method: &str, handler: H)
        requires
            route_of(old(self)@, method@) is None,
        ensures
            final(self)@ == old(self)@.push(EntryView { name: method@, handler }),
            old(self).well_formed() ==> final(self).well_formed(),
    {
        proof {
            index_of_is_first(self@, method@);
        }
        let ghost before = self@;
        self.entries.push(Entry { name: method.to_string(), handler });
        assert(self@ =~= before.push(EntryView { name: method@, handler }));
    }
}

impl<H: Route> Router<H> {
    /// Runs one call: looks the method up, and lets its handler decode the
    /// parameters and say what comes next after `answers`. The outcome of a
    /// handler that is done goes back encoded as a response.
    pub fn dispatch(&self, request: &Request, answers: &Vec<H::Answer>) -> (r: Dispatch<H::Query>)
        ensures
            r@ == dispatch_of(
                self@,
                request.method@,
                contents(request.params@),
                contents(answers@),
            ),
    {
        match self.route(request.method.as_str()) {
            None => Dispatch::Respond(encode(Err(RpcError::MethodNotFound))),
            Some(handler) => match handler.run(&request.params, answers) {
                Step::Done(outcome) => Dispatch::Respond(encode(outcome)),
                Step::Ask(q) => Dispatch::Ask(q),
                Step::Tell(q) => Dispatch::Tell(q),
            },
        }
    }
}

} // verus!
