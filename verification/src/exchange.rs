//! What a handle refers to: an actor's mailbox together with the reply
//! slots of the questions that were put through it. Telling puts a payload
//! into the mailbox; asking puts it there with a fresh slot, on which the
//! asker then waits.
//!
//! A slot serves one question. The table keeps slots in places, and a place
//! whose slot is spent may take the slot of a later question. To keep the
//! two questions apart, a place counts its slots: a ticket names the place
//! and the count, and a reply is taken only under the ticket of the slot
//! that is in the place now.

use crate::ask::{outcome, AskError, ReplySlot};
use crate::mailbox::{Closed, Mailbox, MailboxView};
use vstd::prelude::*;

verus! {

/// What names one question's reply slot: the place in the table, and which
/// of the slots that the place has held.
#[derive(Debug, PartialEq, Eq, Clone, Copy)]
pub struct Ticket {
    pub place: usize,
    pub generation: u64,
}

/// A message as it waits in the mailbox: the payload, and the ticket of the
/// slot that the answer is to go to if the sender waits for one.
#[derive(Debug, PartialEq, Eq)]
pub struct Envelope<P> {
    pub payload: P,
    pub reply_to: Option<Ticket>,
}

/// One place of the table: the slot that is in it, and how many slots were
/// in it before.
pub struct Place<T, E> {
    pub generation: u64,
    pub slot: ReplySlot<T, E>,
}

/// An actor's mailbox and reply slots.
pub struct Exchange<P, T, E> {
    mailbox: Mailbox<Envelope<P>>,
    places: Vec<Place<T, E>>,
}

/// The mathematical content of an [`Exchange`].
pub struct ExchangeView<P, T, E> {
    pub mailbox: MailboxView<Envelope<P>>,
    pub places: Seq<Place<T, E>>,
}

/// What can happen to an exchange.
pub enum Move<P, T, E> {
    Tell(P),
    Ask(P),
    Receive,
    Reply(Ticket, Result<T, E>),
    Collect(Ticket, bool),
    Stop,
}

/// Whether a place can take the slot of a new question: its slot is spent,
/// and its count has room for one more.
pub open spec fn is_free<T, E>(place: Place<T, E>) -> bool {
    place.slot is Spent && place.generation < u64::MAX
}

/// The first place that is free for a new question, or a new place behind
/// all others.
pub open spec fn free_place<T, E>(places: Seq<Place<T, E>>) -> int
    decreases places.len(),
{
    if places.len() == 0 {
        0
    } else if is_free(places[0]) {
        0
    } else {
        1 + free_place(places.drop_first())
    }
}

/// `free_place` is the first free place, or the length if none is free.
pub proof fn free_place_is_first_free<T, E>(places: Seq<Place<T, E>>)
    ensures
        0 <= free_place(places) <= places.len(),
        free_place(places) < places.len() ==> is_free(places[free_place(places)]),
        forall|j: int| 0 <= j < free_place(places) ==> !is_free(places[j]),
    decreases places.len(),
{
    if places.len() > 0 && !is_free(places[0]) {
        let rest = places.drop_first();
        free_place_is_first_free(rest);
        assert forall|j: int| 0 <= j < free_place(places) implies !is_free(places[j]) by {
            if j > 0 {
                assert(rest[j - 1] == places[j]);
            }
        }
    }
}

/// The places after the actor has stopped: what was waiting is gone.
pub open spec fn all_rejected<T, E>(places: Seq<Place<T, E>>) -> Seq<Place<T, E>> {
    Seq::new(
        places.len(),
        |i: int|
            if places[i].slot is Waiting {
                Place { generation: places[i].generation, slot: ReplySlot::Gone }
            } else {
                places[i]
            },
    )
}

impl<P, T, E> ExchangeView<P, T, E> {
    /// Whether `ticket` names the slot that is in its place now.
    pub open spec fn current(self, ticket: Ticket) -> bool {
        ticket.place < self.places.len() && self.places[ticket.place as int].generation
            == ticket.generation
    }

    /// Whether `ticket` was handed out: it names a slot that is or was in
    /// its place.
    pub open spec fn issued(self, ticket: Ticket) -> bool {
        ticket.place < self.places.len() && ticket.generation
            <= self.places[ticket.place as int].generation
    }

    /// Whether the question of `ticket` is over for its asker: its slot is
    /// spent, or has made room for a later one.
    pub open spec fn over(self, ticket: Ticket) -> bool {
        &&& self.issued(ticket)
        &&& self.current(ticket) ==> self.places[ticket.place as int].slot is Spent
    }

    /// The ticket that the next question gets.
    pub open spec fn next_ticket(self) -> Ticket {
        let place = free_place(self.places);
        Ticket {
            place: place as usize,
            generation: if place < self.places.len() {
                (self.places[place].generation + 1) as u64
            } else {
                0
            },
        }
    }

    /// What the asker of `ticket` finds: nothing while it has to go on
    /// waiting, and nothing under a ticket whose slot is no longer there.
    pub open spec fn answer(self, ticket: Ticket, timed_out: bool) -> Option<
        Result<T, AskError<E>>,
    > {
        if self.current(ticket) {
            outcome(self.places[ticket.place as int].slot, timed_out)
        } else {
            None
        }
    }

    /// The exchange after `payload` was sent without a ticket.
    pub open spec fn told(self, payload: P) -> ExchangeView<P, T, E> {
        ExchangeView {
            mailbox: self.mailbox.sent(Envelope { payload, reply_to: None }),
            places: self.places,
        }
    }

    /// What `ask` makes of the exchange: nothing if the mailbox is closed,
    /// else the payload waits with the next ticket, and a waiting slot is in
    /// that ticket's place.
    pub open spec fn asked(self, payload: P) -> ExchangeView<P, T, E> {
        if self.mailbox.open {
            let ticket = self.next_ticket();
            let place = Place { generation: ticket.generation, slot: ReplySlot::Waiting };
            ExchangeView {
                mailbox: self.mailbox.sent(Envelope { payload, reply_to: Some(ticket) }),
                places: if ticket.place < self.places.len() {
                    self.places.update(ticket.place as int, place)
                } else {
                    self.places.push(place)
                },
            }
        } else {
            self
        }
    }

    /// The exchange after the actor has tried to take a message.
    pub open spec fn received(self) -> ExchangeView<P, T, E> {
        ExchangeView { mailbox: self.mailbox.received(), places: self.places }
    }

    /// Whether a reply under `ticket` is taken: the ticket's slot is in its
    /// place and waits.
    pub open spec fn takes_reply(self, ticket: Ticket) -> bool {
        self.current(ticket) && self.places[ticket.place as int].slot is Waiting
    }

    /// The exchange after the actor has replied under `ticket`.
    pub open spec fn replied(self, ticket: Ticket, reply: Result<T, E>) -> ExchangeView<P, T, E> {
        if self.takes_reply(ticket) {
            ExchangeView {
                mailbox: self.mailbox,
                places: self.places.update(
                    ticket.place as int,
                    Place { generation: ticket.generation, slot: ReplySlot::Fulfilled(reply) },
                ),
            }
        } else {
            self
        }
    }

    /// The exchange after the asker of `ticket` has looked for its outcome.
    pub open spec fn collected(self, ticket: Ticket, timed_out: bool) -> ExchangeView<P, T, E> {
        if self.answer(ticket, timed_out) is Some {
            ExchangeView {
                mailbox: self.mailbox,
                places: self.places.update(
                    ticket.place as int,
                    Place { generation: ticket.generation, slot: ReplySlot::Spent },
                ),
            }
        } else {
            self
        }
    }

    /// What stopping makes of the exchange.
    pub open spec fn stopped(self) -> ExchangeView<P, T, E> {
        ExchangeView {
            mailbox: MailboxView { pending: Seq::empty(), open: false },
            places: all_rejected(self.places),
        }
    }

    /// The exchange after `step`.
    pub open spec fn moved(self, step: Move<P, T, E>) -> ExchangeView<P, T, E> {
        match step {
            Move::Tell(payload) => self.told(payload),
            Move::Ask(payload) => self.asked(payload),
            Move::Receive => self.received(),
            Move::Reply(ticket, reply) => self.replied(ticket, reply),
            Move::Collect(ticket, timed_out) => self.collected(ticket, timed_out),
            Move::Stop => self.stopped(),
        }
    }

    /// The exchange after `steps`, one after another.
    pub open spec fn moved_all(self, steps: Seq<Move<P, T, E>>) -> ExchangeView<P, T, E>
        decreases steps.len(),
    {
        if steps.len() == 0 {
            self
        } else {
            self.moved(steps[0]).moved_all(steps.drop_first())
        }
    }

    /// What holds of every exchange: each ticket that waits in the mailbox
    /// was handed out, no two waiting messages carry the same ticket, and
    /// the table fits the machine.
    pub open spec fn well_formed(self) -> bool {
        &&& self.places.len() <= usize::MAX
        &&& forall|i: int|
            0 <= i < self.mailbox.pending.len() && (
            #[trigger] self.mailbox.pending[i]).reply_to is Some ==> self.issued(
                self.mailbox.pending[i].reply_to->Some_0,
            )
        &&& forall|i: int, j: int|
            0 <= i < self.mailbox.pending.len() && 0 <= j < self.mailbox.pending.len() && (
            #[trigger] self.mailbox.pending[i]).reply_to is Some && self.mailbox.pending[i].reply_to
                == (#[trigger] self.mailbox.pending[j]).reply_to ==> i == j
    }
}

impl<P, T, E> View for Exchange<P, T, E> {
    type V = ExchangeView<P, T, E>;

    closed spec fn view(&self) -> ExchangeView<P, T, E> {
        ExchangeView { mailbox: self.mailbox@, places: self.places@ }
    }
}

impl<P, T, E> Exchange<P, T, E> {
    /// An open exchange with nothing waiting and no slots.
    pub fn new() -> (exchange: Self)
        ensures
            exchange@ == (ExchangeView::<P, T, E> {
                mailbox: MailboxView { pending: Seq::empty(), open: true },
                places: Seq::empty(),
            }),
            exchange@.well_formed(),
    {
        Exchange { mailbox: Mailbox::new(), places: Vec::new() }
    }

    /// Whether the actor still takes messages.
    pub fn is_open(&self) -> (open: bool)
        ensures
            open == self@.mailbox.open,
    {
        self.mailbox.is_open()
    }

    /// How many messages wait.
    pub fn pending(&self) -> (n: usize)
        ensures
            n == self@.mailbox.pending.len(),
    {
        self.mailbox.len()
    }

    /// How many places the table of reply slots has.
    pub fn places(&self) -> (n: usize)
        ensures
            n == self@.places.len(),
    {
        self.places.len()
    }

    /// Whether `ticket` names the slot that is in its place now.
    pub fn is_current(&self, ticket: Ticket) -> (current: bool)
        ensures
            current == self@.current(ticket),
    {
        ticket.place < self.places.len() && self.places[ticket.place].generation
            == ticket.generation
    }

    /// Sends `payload` without asking for a reply. A closed mailbox takes
    /// nothing: the payload comes back.
    pub fn tell(&mut self, payload: P) -> (r: Result<(), Closed<P>>)
        ensures
            final(self)@ == old(self)@.told(payload),
            r == if old(self)@.mailbox.open {
                Ok::<(), Closed<P>>(())
            } else {
                Err::<(), Closed<P>>(Closed(payload))
            },
            old(self)@.well_formed() ==> final(self)@.well_formed(),
    {
        let sent = self.mailbox.send(Envelope { payload, reply_to: None });
        proof {
            if old(self)@.well_formed() {
                moves_keep_well_formed(old(self)@, Move::Tell(payload));
            }
        }
        match sent {
            Ok(()) => Ok(()),
            Err(Closed(envelope)) => Err(Closed(envelope.payload)),
        }
    }

    /// Sends `payload` with a fresh reply slot and returns the ticket under
    /// which the reply can be collected. The ticket was never handed out
    /// before, so that no message that waits carries it. An actor that has
    /// stopped is not asked: the asker learns at once that it is gone.
    pub fn ask(&mut self, payload: P) -> (r: Result<Ticket, AskError<E>>)
        ensures
            final(self)@ == old(self)@.asked(payload),
            r == if old(self)@.mailbox.open {
                Ok::<Ticket, AskError<E>>(old(self)@.next_ticket())
            } else {
                Err::<Ticket, AskError<E>>(AskError::ActorGone)
            },
            r matches Ok(ticket) ==> !old(self)@.issued(ticket) && final(self)@.takes_reply(
                ticket,
            ),
            old(self)@.well_formed() ==> final(self)@.well_formed(),
            old(self)@.well_formed() ==> forall|i: int|
                0 <= i < old(self)@.mailbox.pending.len() ==> (
                #[trigger] old(self)@.mailbox.pending[i]).reply_to != Some(
                    old(self)@.next_ticket(),
                ),
    {
        proof {
            assert(self.places.len() <= usize::MAX);
            free_place_is_first_free(self.places@);
            fresh_ticket_is_new(self@);
        }
        if !self.mailbox.is_open() {
            return Err(AskError::ActorGone);
        }
        let mut place: usize = 0;
        while place < self.places.len()
            invariant
                place <= self.places.len(),
                forall|j: int| 0 <= j < place ==> !is_free(self.places@[j]),
                0 <= free_place(self.places@) <= self.places.len(),
                free_place(self.places@) < self.places.len() ==> is_free(
                    self.places@[free_place(self.places@)],
                ),
                forall|j: int| 0 <= j < free_place(self.places@) ==> !is_free(self.places@[j]),
            ensures
                place == free_place(self.places@),
            decreases self.places.len() - place,
        {
            let spent = match &self.places[place].slot {
                ReplySlot::Spent => true,
                _ => false,
            };
            if spent && self.places[place].generation < u64::MAX {
                break ;
            }
            place += 1;
        }
        let ticket = if place < self.places.len() {
            let generation = self.places[place].generation + 1;
            self.places[place] = Place { generation, slot: ReplySlot::new() };
            Ticket { place, generation }
        } else {
            self.places.push(Place { generation: 0, slot: ReplySlot::new() });
            Ticket { place, generation: 0 }
        };
        let _ = self.mailbox.send(Envelope { payload, reply_to: Some(ticket) });
        proof {
            assert(self.places.len() <= usize::MAX);
            assert(self.places@ =~= old(self)@.asked(payload).places);
            if old(self)@.well_formed() {
                moves_keep_well_formed(old(self)@, Move::Ask(payload));
            }
        }
        Ok(ticket)
    }

    /// Takes the message that has waited longest, if any waits.
    pub fn receive(&mut self) -> (r: Option<Envelope<P>>)
        ensures
            final(self)@ == old(self)@.received(),
            r == if old(self)@.mailbox.pending.len() > 0 {
                Some(old(self)@.mailbox.pending[0])
            } else {
                None::<Envelope<P>>
            },
            old(self)@.well_formed() ==> final(self)@.well_formed(),
    {
        let r = self.mailbox.receive();
        proof {
            if old(self)@.well_formed() {
                moves_keep_well_formed(old(self)@, Move::Receive);
            }
        }
        r
    }

    /// Puts the actor's reply into the slot of `ticket`. A slot takes one
    /// reply and only while its asker waits; any other reply is dropped,
    /// and so is a reply under a ticket whose slot is no longer in its
    /// place. Returns whether the reply was taken.
    pub fn reply(&mut self, ticket: Ticket, reply: Result<T, E>) -> (taken: bool)
        ensures
            final(self)@ == old(self)@.replied(ticket, reply),
            taken == old(self)@.takes_reply(ticket),
            old(self)@.well_formed() ==> final(self)@.well_formed(),
    {
        proof {
            if self@.well_formed() {
                moves_keep_well_formed(self@, Move::Reply(ticket, reply));
            }
        }
        if !self.is_current(ticket) {
            return false;
        }
        let taken = self.places[ticket.place].slot.fulfill(reply).is_ok();
        proof {
            if taken {
                assert(self.places@ =~= old(self)@.replied(ticket, reply).places);
            } else {
                assert(self.places@ =~= old(self)@.places);
            }
        }
        taken
    }

    /// Looks for the outcome of the question with the given ticket: `None`
    /// while the asker has to go on waiting. An outcome is collected once
    /// and leaves the slot spent; a deadline that has passed is an outcome.
    pub fn collect(&mut self, ticket: Ticket, timed_out: bool) -> (r: Option<
        Result<T, AskError<E>>,
    >)
        ensures
            r == old(self)@.answer(ticket, timed_out),
            final(self)@ == old(self)@.collected(ticket, timed_out),
            old(self)@.well_formed() ==> final(self)@.well_formed(),
    {
        proof {
            if self@.well_formed() {
                moves_keep_well_formed(self@, Move::Collect(ticket, timed_out));
            }
        }
        if !self.is_current(ticket) {
            return None;
        }
        let r = self.places[ticket.place].slot.collect(timed_out);
        proof {
            if r is Some {
                assert(self.places@ =~= old(self)@.collected(ticket, timed_out).places);
            } else {
                assert(self.places@ =~= old(self)@.places);
            }
        }
        r
    }

    /// Stops the actor's side: the mailbox is closed, what still waited in
    /// it is handed out, and every slot that waits for a reply learns that
    /// the actor is gone.
    pub fn stop(&mut self) -> (left: Vec<Envelope<P>>)
        ensures
            left@ == old(self)@.mailbox.pending,
            final(self)@ == old(self)@.stopped(),
            old(self)@.well_formed() ==> final(self)@.well_formed(),
    {
        proof {
            if self@.well_formed() {
                moves_keep_well_formed(self@, Move::Stop);
            }
        }
        let left = self.mailbox.close();
        let mut i: usize = 0;
        while i < self.places.len()
            invariant
                i <= self.places.len(),
                self.places.len() == old(self)@.places.len(),
                self.mailbox@ == (MailboxView::<Envelope<P>> {
                    pending: Seq::empty(),
                    open: false,
                }),
                forall|j: int|
                    0 <= j < i ==> self.places@[j] == all_rejected(old(self)@.places)[j],
                forall|j: int|
                    i <= j < self.places.len() ==> self.places@[j] == old(self)@.places[j],
            decreases self.places.len() - i,
        {
            let _ = self.places[i].slot.reject();
            i += 1;
        }
        assert(self.places@ =~= all_rejected(old(self)@.places));
        left
    }
}

/// The ticket of the next question was never handed out, and so no message
/// that waits carries it.
pub proof fn fresh_ticket_is_new<P, T, E>(exchange: ExchangeView<P, T, E>)
    requires
        exchange.places.len() <= usize::MAX,
    ensures
        !exchange.issued(exchange.next_ticket()),
        exchange.well_formed() ==> forall|i: int|
            0 <= i < exchange.mailbox.pending.len() ==> (
            #[trigger] exchange.mailbox.pending[i]).reply_to != Some(exchange.next_ticket()),
{
    free_place_is_first_free(exchange.places);
}

/// A ticket that was handed out stays handed out, and a question that is
/// over stays over, whatever happens to the exchange.
pub proof fn moves_keep_tickets<P, T, E>(
    exchange: ExchangeView<P, T, E>,
    step: Move<P, T, E>,
    ticket: Ticket,
)
    requires
        exchange.places.len() <= usize::MAX,
    ensures
        exchange.issued(ticket) ==> exchange.moved(step).issued(ticket),
        exchange.over(ticket) ==> exchange.moved(step).over(ticket),
{
    free_place_is_first_free(exchange.places);
}

/// Every step leaves a well-formed exchange well-formed, as long as the
/// table fits the machine.
pub proof fn moves_keep_well_formed<P, T, E>(exchange: ExchangeView<P, T, E>, step: Move<P, T, E>)
    requires
        exchange.well_formed(),
        exchange.moved(step).places.len() <= usize::MAX,
    ensures
        exchange.moved(step).well_formed(),
{
    let next = exchange.moved(step);
    free_place_is_first_free(exchange.places);
    fresh_ticket_is_new(exchange);
    assert forall|i: int|
        0 <= i < next.mailbox.pending.len() && (
        #[trigger] next.mailbox.pending[i]).reply_to is Some implies next.issued(
        next.mailbox.pending[i].reply_to->Some_0,
    ) by {
        let ticket = next.mailbox.pending[i].reply_to->Some_0;
        match step {
            Move::Receive => {
                assert(next.mailbox.pending[i] == exchange.mailbox.pending[i + 1]);
            },
            Move::Ask(_) => {
                if i < exchange.mailbox.pending.len() {
                    assert(next.mailbox.pending[i] == exchange.mailbox.pending[i]);
                }
            },
            Move::Tell(_) => {
                if i < exchange.mailbox.pending.len() {
                    assert(next.mailbox.pending[i] == exchange.mailbox.pending[i]);
                }
            },
            _ => {
                assert(next.mailbox.pending[i] == exchange.mailbox.pending[i]);
            },
        }
    }
    assert forall|i: int, j: int|
        0 <= i < next.mailbox.pending.len() && 0 <= j < next.mailbox.pending.len() && (
        #[trigger] next.mailbox.pending[i]).reply_to is Some && next.mailbox.pending[i].reply_to
            == (#[trigger] next.mailbox.pending[j]).reply_to implies i == j by {
        match step {
            Move::Receive => {
                assert(next.mailbox.pending[i] == exchange.mailbox.pending[i + 1]);
                assert(next.mailbox.pending[j] == exchange.mailbox.pending[j + 1]);
            },
            Move::Ask(_) | Move::Tell(_) => {
                if i < exchange.mailbox.pending.len() {
                    assert(next.mailbox.pending[i] == exchange.mailbox.pending[i]);
                }
                if j < exchange.mailbox.pending.len() {
                    assert(next.mailbox.pending[j] == exchange.mailbox.pending[j]);
                }
            },
            _ => {
                assert(next.mailbox.pending[i] == exchange.mailbox.pending[i]);
                assert(next.mailbox.pending[j] == exchange.mailbox.pending[j]);
            },
        }
    }
}

/// A reply to a question whose asker gave up is collected by nobody. Once
/// the asker has given up on the deadline, its question is over, and stays
/// over whatever happens then: other questions are asked, answered and
/// collected, the place takes later slots. A reply under the old ticket is
/// then not taken and leaves every slot as it is, and the old ticket has no
/// outcome.
pub proof fn late_reply_is_collected_by_nobody<P, T, E>(
    exchange: ExchangeView<P, T, E>,
    ticket: Ticket,
    steps: Seq<Move<P, T, E>>,
    reply: Result<T, E>,
    timed_out: bool,
)
    requires
        exchange.takes_reply(ticket),
        exchange.places.len() <= usize::MAX,
        exchange.collected(ticket, true).moved_all(steps).places.len() <= usize::MAX,
    ensures
        ({
            let later = exchange.collected(ticket, true).moved_all(steps);
            &&& later.over(ticket)
            &&& !later.takes_reply(ticket)
            &&& later.replied(ticket, reply) == later
            &&& later.answer(ticket, timed_out) is None
        }),
{
    over_stays_over(exchange.collected(ticket, true), ticket, steps);
}

/// A question that is over stays over through any run of steps.
pub proof fn over_stays_over<P, T, E>(
    exchange: ExchangeView<P, T, E>,
    ticket: Ticket,
    steps: Seq<Move<P, T, E>>,
)
    requires
        exchange.over(ticket),
        exchange.places.len() <= usize::MAX,
        exchange.moved_all(steps).places.len() <= usize::MAX,
    ensures
        exchange.moved_all(steps).over(ticket),
    decreases steps.len(),
{
    if steps.len() > 0 {
        let next = exchange.moved(steps[0]);
        moves_keep_tickets(exchange, steps[0], ticket);
        places_never_go(next, steps.drop_first());
        over_stays_over(next, ticket, steps.drop_first());
    }
}

/// The table never shrinks.
pub proof fn places_never_go<P, T, E>(exchange: ExchangeView<P, T, E>, steps: Seq<Move<P, T, E>>)
    ensures
        exchange.places.len() <= exchange.moved_all(steps).places.len(),
    decreases steps.len(),
{
    if steps.len() > 0 {
        places_never_go(exchange.moved(steps[0]), steps.drop_first());
    }
}

/// An actor that has stopped is never asked again: the exchange stays as
/// stopping left it, closed and empty.
pub proof fn stopped_actor_is_not_asked<P, T, E>(exchange: ExchangeView<P, T, E>, payload: P)
    ensures
        !exchange.stopped().mailbox.open,
        exchange.stopped().asked(payload) == exchange.stopped(),
{
}

/// Nobody waits for ever on an actor that has stopped: every question that
/// was waiting for its reply when the actor stopped has `ActorGone` for its
/// outcome, deadline or none.
pub proof fn waiting_asker_learns_of_stop<P, T, E>(
    exchange: ExchangeView<P, T, E>,
    ticket: Ticket,
    timed_out: bool,
)
    requires
        exchange.takes_reply(ticket),
    ensures
        exchange.stopped().answer(ticket, timed_out) == Some(
            Err::<T, AskError<E>>(AskError::ActorGone),
        ),
{
}

/// A question that was asked is in the mailbox behind all that waited, and
/// its slot waits: until the actor replies or stops, the asker has no
/// outcome but a deadline that passes. No other place changes.
pub proof fn asked_question_waits<P, T, E>(exchange: ExchangeView<P, T, E>, payload: P)
    requires
        exchange.mailbox.open,
        exchange.places.len() < usize::MAX,
    ensures
        ({
            let ticket = exchange.next_ticket();
            let then = exchange.asked(payload);
            &&& then.takes_reply(ticket)
            &&& then.mailbox.pending == exchange.mailbox.pending.push(
                Envelope { payload, reply_to: Some(ticket) },
            )
            &&& then.answer(ticket, false) is None
            &&& then.answer(ticket, true) == Some(Err::<T, AskError<E>>(AskError::Timeout))
            &&& forall|j: int|
                0 <= j < exchange.places.len() && j != ticket.place ==> then.places[j]
                    == exchange.places[j]
        }),
{
    free_place_is_first_free(exchange.places);
}

} // verus!
