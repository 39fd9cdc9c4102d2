//! What the persistence layer reports when its state changes, how a report
//! reaches the frontend actor, and how the frontend actor hands it to every
//! dashboard that is attached at that moment.

use crate::actor::Behavior;
use crate::codec::{named, Encode};
use crate::exchange::Exchange;
use crate::records::NodeStatus;
use crate::responses::{encode_status, status_name};
use crate::value::{Field, Value, ValueView};
use vstd::prelude::*;

verus! {

/// A change of state that dashboards are told of.
#[derive(Debug, PartialEq, Eq)]
pub enum Event {
    NodeConnected { name: String },
    NodeDisconnected { name: String },
    StatusChanged { name: String, status: NodeStatus },
    LogLine { name: String, line: String },
}

/// The mathematical content of an [`Event`].
pub enum EventView {
    NodeConnected { name: Seq<char> },
    NodeDisconnected { name: Seq<char> },
    StatusChanged { name: Seq<char>, status: NodeStatus },
    LogLine { name: Seq<char>, line: Seq<char> },
}

impl View for Event {
    type V = EventView;

    open spec fn view(&self) -> EventView {
        match self {
            Event::NodeConnected { name } => EventView::NodeConnected { name: name@ },
            Event::NodeDisconnected { name } => EventView::NodeDisconnected { name: name@ },
            Event::StatusChanged { name, status } => EventView::StatusChanged {
                name: name@,
                status: *status,
            },
            Event::LogLine { name, line } => EventView::LogLine { name: name@, line: line@ },
        }
    }
}

impl Encode for Event {
    /// A record that names the kind of event under `type` and the node
    /// under `name`, with the status or the line where there is one.
    open spec fn encoded(x: EventView) -> ValueView {
        match x {
            EventView::NodeConnected { name } => ValueView::Record(
                seq![
                    named("type"@, ValueView::Text("nodeConnected"@)),
                    named("name"@, ValueView::Text(name)),
                ],
            ),
            EventView::NodeDisconnected { name } => ValueView::Record(
                seq![
                    named("type"@, ValueView::Text("nodeDisconnected"@)),
                    named("name"@, ValueView::Text(name)),
                ],
            ),
            EventView::StatusChanged { name, status } => ValueView::Record(
                seq![
                    named("type"@, ValueView::Text("statusChanged"@)),
                    named("name"@, ValueView::Text(name)),
                    named("status"@, ValueView::Text(status_name(status))),
                ],
            ),
            EventView::LogLine { name, line } => ValueView::Record(
                seq![
                    named("type"@, ValueView::Text("logLine"@)),
                    named("name"@, ValueView::Text(name)),
                    named("line"@, ValueView::Text(line)),
                ],
            ),
        }
    }

    fn encode(&self) -> (raw: Value) {
        let mut fields: Vec<Field> = Vec::new();
        match self {
            Event::NodeConnected { name } => {
                fields.push(Field::new("type", Value::text("nodeConnected")));
                fields.push(Field::new("name", Value::Text(name.clone())));
            },
            Event::NodeDisconnected { name } => {
                fields.push(Field::new("type", Value::text("nodeDisconnected")));
                fields.push(Field::new("name", Value::Text(name.clone())));
            },
            Event::StatusChanged { name, status } => {
                fields.push(Field::new("type", Value::text("statusChanged")));
                fields.push(Field::new("name", Value::Text(name.clone())));
                fields.push(Field::new("status", encode_status(*status)));
            },
            Event::LogLine { name, line } => {
                fields.push(Field::new("type", Value::text("logLine")));
                fields.push(Field::new("name", Value::Text(name.clone())));
                fields.push(Field::new("line", Value::Text(line.clone())));
            },
        }
        let raw = Value::record(fields);
        assert(raw@->Record_0 =~= Self::encoded(self@)->Record_0);
        raw
    }
}

/// What the frontend actor is sent.
#[derive(Debug, PartialEq, Eq)]
pub enum FrontendMessage {
    /// A dashboard's socket was opened.
    Attach(u64),
    /// A dashboard's socket was closed, or was found to be closed.
    Detach(u64),
    /// The persistence layer reports a change.
    Publish(Event),
}

/// The mathematical content of a [`FrontendMessage`].
pub enum FrontendMessageView {
    Attach(u64),
    Detach(u64),
    Publish(EventView),
}

impl View for FrontendMessage {
    type V = FrontendMessageView;

    open spec fn view(&self) -> FrontendMessageView {
        match self {
            FrontendMessage::Attach(id) => FrontendMessageView::Attach(*id),
            FrontendMessage::Detach(id) => FrontendMessageView::Detach(*id),
            FrontendMessage::Publish(event) => FrontendMessageView::Publish(event@),
        }
    }
}

/// Hands an event to the frontend actor and returns at once, however many
/// dashboards are attached. Returns whether the frontend actor was still
/// there to take it: if not, the event is dropped.
pub fn publish<T, E>(frontend: &mut Exchange<FrontendMessage, T, E>, event: Event) -> (taken: bool)
    ensures
        taken == old(frontend)@.mailbox.open,
        final(frontend)@ == old(frontend)@.told(FrontendMessage::Publish(event)),
        old(frontend)@.well_formed() ==> final(frontend)@.well_formed(),
{
    frontend.tell(FrontendMessage::Publish(event)).is_ok()
}

/// One encoded event for the sockets that were attached when it arrived.
#[derive(Debug, PartialEq, Eq)]
pub struct Broadcast {
    pub to: Vec<u64>,
    pub message: Value,
}

/// The state of the frontend actor: the sockets that are attached, in the
/// order in which they were.
pub struct Frontend {
    connections: Vec<u64>,
}

impl View for Frontend {
    type V = Seq<u64>;

    closed spec fn view(&self) -> Seq<u64> {
        self.connections@
    }
}

/// What holds of every socket but `id`.
pub open spec fn other_than(id: u64) -> spec_fn(u64) -> bool {
    |other: u64| other != id
}

/// The attached sockets after a message.
pub open spec fn attached_after(attached: Seq<u64>, message: FrontendMessageView) -> Seq<u64> {
    match message {
        FrontendMessageView::Attach(id) => if attached.contains(id) {
            attached
        } else {
            attached.push(id)
        },
        FrontendMessageView::Detach(id) => attached.filter(other_than(id)),
        FrontendMessageView::Publish(_) => attached,
    }
}

/// The sockets that a message is broadcast to: all of them for an event,
/// none for anything else.
pub open spec fn recipients(attached: Seq<u64>, message: FrontendMessageView) -> Seq<u64> {
    match message {
        FrontendMessageView::Publish(_) => attached,
        _ => Seq::empty(),
    }
}

/// What each socket gets for a message.
pub open spec fn broadcast_of(message: FrontendMessageView) -> ValueView {
    match message {
        FrontendMessageView::Publish(event) => Event::encoded(event),
        _ => ValueView::Null,
    }
}

impl Frontend {
    /// A frontend with no socket attached.
    pub fn new() -> (frontend: Self)
        ensures
            frontend@ == Seq::<u64>::empty(),
    {
        Frontend { connections: Vec::new() }
    }

    /// How many sockets are attached.
    pub fn len(&self) -> (n: usize)
        ensures
            n == self@.len(),
    {
        self.connections.len()
    }

    /// Whether the socket `id` is attached.
    pub fn is_attached(&self, id: u64) -> (b: bool)
        ensures
            b == self@.contains(id),
    {
        let mut i: usize = 0;
        while i < self.connections.len()
            invariant
                i <= self.connections.len(),
                forall|j: int| 0 <= j < i ==> self.connections@[j] != id,
            decreases self.connections.len() - i,
        {
            if self.connections[i] == id {
                return true;
            }
            i += 1;
        }
        false
    }

    fn detach(&mut self, id: u64)
        ensures
            final(self)@ == old(self)@.filter(other_than(id)),
    {
        let mut kept: Vec<u64> = Vec::new();
        let mut i: usize = 0;
        let ghost keep = other_than(id);
        proof {
            assert(self.connections@.subrange(0, 0) =~= Seq::<u64>::empty());
            reveal(Seq::filter);
        }
        while i < self.connections.len()
            invariant
                i <= self.connections.len(),
                keep == other_than(id),
                kept@ == self.connections@.subrange(0, i as int).filter(keep),
                self.connections@ == old(self)@,
            decreases self.connections.len() - i,
        {
            let other = self.connections[i];
            proof {
                let front = self.connections@.subrange(0, i as int);
                let next = self.connections@.subrange(0, i + 1);
                assert(next.drop_last() =~= front);
                assert(next.last() == other);
                reveal(Seq::filter);
            }
            if other != id {
                kept.push(other);
            }
            i += 1;
        }
        assert(self.connections@.subrange(0, i as int) =~= self.connections@);
        self.connections = kept;
    }
}

impl Behavior for Frontend {
    type Message = FrontendMessage;

    type Reply = Broadcast;

    type Failure = ();

    /// The sockets change as the message says, and what is handed back is
    /// the message's broadcast to the sockets that were attached before it.
    open spec fn handled(
        before: Self,
        message: FrontendMessage,
        after: Self,
        reply: Result<Broadcast, ()>,
    ) -> bool {
        &&& after@ == attached_after(before@, message@)
        &&& reply matches Ok(broadcast)
        &&& broadcast.to@ == recipients(before@, message@)
        &&& broadcast.message@ == broadcast_of(message@)
    }

    fn handle(&mut self, message: FrontendMessage) -> (reply: Result<Broadcast, ()>) {
        match message {
            FrontendMessage::Attach(id) => {
                if !self.is_attached(id) {
                    self.connections.push(id);
                }
                Ok(Broadcast { to: Vec::new(), message: Value::Null })
            },
            FrontendMessage::Detach(id) => {
                self.detach(id);
                Ok(Broadcast { to: Vec::new(), message: Value::Null })
            },
            FrontendMessage::Publish(event) => {
                let mut to: Vec<u64> = Vec::new();
                let mut i: usize = 0;
                while i < self.connections.len()
                    invariant
                        i <= self.connections.len(),
                        to@ == self.connections@.subrange(0, i as int),
                    decreases self.connections.len() - i,
                {
                    to.push(self.connections[i]);
                    assert(self.connections@.subrange(0, i + 1) =~= self.connections@.subrange(
                        0,
                        i as int,
                    ).push(self.connections@[i as int]));
                    i += 1;
                }
                assert(self.connections@.subrange(0, i as int) =~= self.connections@);
                Ok(Broadcast { to, message: event.encode() })
            },
        }
    }
}

/// The attached sockets after the frontend actor has handled `messages`
/// one after another.
pub open spec fn attached_after_all(attached: Seq<u64>, messages: Seq<FrontendMessageView>) -> Seq<
    u64,
>
    decreases messages.len(),
{
    if messages.len() == 0 {
        attached
    } else {
        attached_after_all(attached_after(attached, messages[0]), messages.drop_first())
    }
}

/// The events that the socket `id` is sent while the frontend actor handles
/// `messages` one after another: those whose broadcast it is a recipient of.
pub open spec fn events_sent_to(
    id: u64,
    attached: Seq<u64>,
    messages: Seq<FrontendMessageView>,
) -> Seq<EventView>
    decreases messages.len(),
{
    if messages.len() == 0 {
        Seq::empty()
    } else {
        let rest = events_sent_to(
            id,
            attached_after(attached, messages[0]),
            messages.drop_first(),
        );
        match messages[0] {
            FrontendMessageView::Publish(event) => if recipients(attached, messages[0]).contains(
                id,
            ) {
                seq![event] + rest
            } else {
                rest
            },
            _ => rest,
        }
    }
}

/// The messages by which `events` are published, in order.
pub open spec fn publishing(events: Seq<EventView>) -> Seq<FrontendMessageView> {
    Seq::new(events.len(), |i: int| FrontendMessageView::Publish(events[i]))
}

/// Publishing attaches and detaches nothing.
pub proof fn publishing_keeps_sockets(attached: Seq<u64>, events: Seq<EventView>)
    ensures
        attached_after_all(attached, publishing(events)) == attached,
    decreases events.len(),
{
    if events.len() > 0 {
        assert(publishing(events).drop_first() =~= publishing(events.drop_first()));
        publishing_keeps_sockets(attached, events.drop_first());
    }
}

/// A socket that stays attached is sent every event that is published, in
/// the order in which they were published.
pub proof fn attached_socket_gets_every_event(id: u64, attached: Seq<u64>, events: Seq<EventView>)
    requires
        attached.contains(id),
    ensures
        events_sent_to(id, attached, publishing(events)) == events,
    decreases events.len(),
{
    if events.len() > 0 {
        assert(publishing(events).drop_first() =~= publishing(events.drop_first()));
        attached_socket_gets_every_event(id, attached, events.drop_first());
        assert(seq![events[0]] + events.drop_first() =~= events);
    } else {
        assert(events =~= Seq::<EventView>::empty());
    }
}

/// A socket that is not attached is sent nothing of what is published.
pub proof fn detached_socket_gets_nothing(id: u64, attached: Seq<u64>, events: Seq<EventView>)
    requires
        !attached.contains(id),
    ensures
        events_sent_to(id, attached, publishing(events)) == Seq::<EventView>::empty(),
    decreases events.len(),
{
    if events.len() > 0 {
        assert(publishing(events).drop_first() =~= publishing(events.drop_first()));
        detached_socket_gets_nothing(id, attached, events.drop_first());
    }
}

/// What a socket is sent over two runs of messages is what it is sent over
/// the first, followed by what it is sent over the second by the sockets
/// that the first run left.
pub proof fn events_sent_over_two_runs(
    id: u64,
    attached: Seq<u64>,
    first: Seq<FrontendMessageView>,
    second: Seq<FrontendMessageView>,
)
    ensures
        events_sent_to(id, attached, first + second) == events_sent_to(id, attached, first)
            + events_sent_to(id, attached_after_all(attached, first), second),
    decreases first.len(),
{
    if first.len() == 0 {
        assert(first + second =~= second);
        assert(Seq::<EventView>::empty() + events_sent_to(id, attached, second)
            =~= events_sent_to(id, attached, second));
    } else {
        let then = attached_after(attached, first[0]);
        assert((first + second).drop_first() =~= first.drop_first() + second);
        assert((first + second)[0] == first[0]);
        events_sent_over_two_runs(id, then, first.drop_first(), second);
        let a = events_sent_to(id, then, first.drop_first());
        let b = events_sent_to(id, attached_after_all(then, first.drop_first()), second);
        match first[0] {
            FrontendMessageView::Publish(event) => {
                if attached.contains(id) {
                    assert(seq![event] + (a + b) =~= (seq![event] + a) + b);
                }
            },
            _ => {},
        }
    }
}

/// A socket that is detached in the middle of a run of events is sent the
/// events that were published before, and none of those published after.
pub proof fn detached_socket_gets_the_prefix(
    id: u64,
    attached: Seq<u64>,
    before: Seq<EventView>,
    after: Seq<EventView>,
)
    requires
        attached.contains(id),
    ensures
        events_sent_to(
            id,
            attached,
            publishing(before) + seq![FrontendMessageView::Detach(id)] + publishing(after),
        ) == before,
{
    let detach = seq![FrontendMessageView::Detach(id)];
    let gone = attached.filter(other_than(id));
    assert(!gone.contains(id)) by {
        if gone.contains(id) {
            let i = choose|i: int| 0 <= i < gone.len() && gone[i] == id;
            attached.lemma_filter_pred(other_than(id), i);
        }
    }
    events_sent_over_two_runs(id, attached, publishing(before) + detach, publishing(after));
    events_sent_over_two_runs(id, attached, publishing(before), detach);
    publishing_keeps_sockets(attached, before);
    attached_socket_gets_every_event(id, attached, before);
    assert(detach.drop_first() =~= Seq::<FrontendMessageView>::empty());
    assert(attached_after(attached, detach[0]) == gone);
    assert(events_sent_to(id, gone, detach.drop_first()) =~= Seq::<EventView>::empty());
    assert(events_sent_to(id, attached, detach) =~= Seq::<EventView>::empty());
    assert(attached_after_all(attached, detach) == gone) by {
        assert(attached_after_all(gone, detach.drop_first()) == gone);
    }
    events_after_two_runs(attached, publishing(before), detach);
    detached_socket_gets_nothing(id, gone, after);
    assert(before + Seq::<EventView>::empty() + Seq::<EventView>::empty() =~= before);
}

/// The sockets after two runs of messages are those that the second run
/// leaves of what the first left.
pub proof fn events_after_two_runs(
    attached: Seq<u64>,
    first: Seq<FrontendMessageView>,
    second: Seq<FrontendMessageView>,
)
    ensures
        attached_after_all(attached, first + second) == attached_after_all(
            attached_after_all(attached, first),
            second,
        ),
    decreases first.len(),
{
    if first.len() == 0 {
        assert(first + second =~= second);
    } else {
        assert((first + second).drop_first() =~= first.drop_first() + second);
        events_after_two_runs(attached_after(attached, first[0]), first.drop_first(), second);
    }
}

/// No socket is attached twice: a set of sockets without duplicates stays
/// without duplicates whatever the frontend actor handles, so that an event
/// goes to each attached socket once.
pub proof fn sockets_stay_distinct(attached: Seq<u64>, message: FrontendMessageView)
    requires
        attached.no_duplicates(),
    ensures
        attached_after(attached, message).no_duplicates(),
{
    match message {
        FrontendMessageView::Detach(id) => {
            others_stay_distinct(attached, id);
        },
        _ => {},
    }
}

/// Detaching a socket leaves the others, in their order, and none that was
/// not attached before.
pub proof fn others_stay_distinct(attached: Seq<u64>, id: u64)
    ensures
        forall|other: u64| #[trigger]
            attached.filter(other_than(id)).contains(other) ==> attached.contains(other),
        attached.no_duplicates() ==> attached.filter(other_than(id)).no_duplicates(),
    decreases attached.len(),
{
    reveal(Seq::filter);
    let keep = other_than(id);
    if attached.len() > 0 {
        let front = attached.drop_last();
        others_stay_distinct(front, id);
        let kept = front.filter(keep);
        assert forall|other: u64| attached.filter(keep).contains(other) implies attached.contains(
            other,
        ) by {
            let i = choose|i: int|
                0 <= i < attached.filter(keep).len() && attached.filter(keep)[i] == other;
            if i < kept.len() {
                assert(kept[i] == other);
                assert(kept.contains(other));
                assert(front.contains(other));
                let j = choose|j: int| 0 <= j < front.len() && front[j] == other;
                assert(attached[j] == other);
            } else {
                assert(attached[attached.len() - 1] == other);
            }
        }
        if attached.no_duplicates() {
            assert(front.no_duplicates());
            if keep(attached.last()) {
                assert(!kept.contains(attached.last())) by {
                    if kept.contains(attached.last()) {
                        assert(front.contains(attached.last()));
                        let j = choose|j: int| 0 <= j < front.len() && front[j] == attached.last();
                        assert(attached[j] == attached[attached.len() - 1]);
                    }
                }
            }
        }
    }
}

} // verus!
