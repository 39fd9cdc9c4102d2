//! The actor's side of an exchange: a state that nothing but the actor
//! touches, and the one step that takes a message out of the mailbox and
//! applies it to that state.

use crate::ask::{outcome, ReplySlot};
use crate::exchange::{
    free_place_is_first_free, fresh_ticket_is_new, Envelope, Exchange, ExchangeView, Ticket,
};
use vstd::prelude::*;

verus! {

/// What an actor does with a message. The state is `self`: only `handle`
/// changes it, one whole message at a time.
pub trait Behavior: Sized {
    type Message;

    type Reply;

    type Failure;

    /// Whether handling `message` in the state `before` may leave the state
    /// `after` and give `reply`. An actor that says nothing of itself may do
    /// anything.
    open spec fn handled(
        before: Self,
        message: Self::Message,
        after: Self,
        reply: Result<Self::Reply, Self::Failure>,
    ) -> bool {
        true
    }

    fn handle(&mut self, message: Self::Message) -> (reply: Result<Self::Reply, Self::Failure>)
        ensures
            Self::handled(*old(self), message, *final(self), reply),
    ;
}

/// What one step of an actor came to.
#[derive(Debug, PartialEq, Eq)]
pub enum Served<R, F> {
    /// Nothing waited.
    Idle,
    /// A question was handled. Its reply went into the asker's slot, unless
    /// the asker had given up: then it was dropped, and this holds `false`.
    Replied(bool),
    /// A message that nobody waits on was handled, with this result.
    Handled(Result<R, F>),
}

/// What one step makes of state and exchange when `envelope` waits at the
/// front and handling its payload gives `reply`.
pub open spec fn served<B: Behavior>(
    before: ExchangeView<B::Message, B::Reply, B::Failure>,
    envelope: Envelope<B::Message>,
    reply: Result<B::Reply, B::Failure>,
    after: ExchangeView<B::Message, B::Reply, B::Failure>,
    result: Served<B::Reply, B::Failure>,
) -> bool {
    match envelope.reply_to {
        None => after == before.received() && result == Served::Handled(reply),
        Some(ticket) => after == before.received().replied(ticket, reply) && result
            == Served::<B::Reply, B::Failure>::Replied(before.takes_reply(ticket)),
    }
}

/// What one step makes of state and exchange.
pub open spec fn stepped<B: Behavior>(
    state: B,
    exchange: ExchangeView<B::Message, B::Reply, B::Failure>,
    next_state: B,
    next_exchange: ExchangeView<B::Message, B::Reply, B::Failure>,
    result: Served<B::Reply, B::Failure>,
) -> bool {
    if exchange.mailbox.pending.len() == 0 {
        result is Idle && next_state == state && next_exchange == exchange
    } else {
        exists|reply: Result<B::Reply, B::Failure>|
            #![auto]
            B::handled(state, exchange.mailbox.pending[0].payload, next_state, reply) && served::<
                B,
            >(exchange, exchange.mailbox.pending[0], reply, next_exchange, result)
    }
}

/// One step of an actor: takes the message that has waited longest and
/// handles it in the state that the step before left. A question's reply
/// goes into its slot. With nothing waiting, nothing changes.
pub fn serve<B: Behavior>(
    state: &mut B,
    exchange: &mut Exchange<B::Message, B::Reply, B::Failure>,
) -> (result: Served<B::Reply, B::Failure>)
    ensures
        stepped(*old(state), old(exchange)@, *final(state), final(exchange)@, result),
        old(exchange)@.well_formed() ==> final(exchange)@.well_formed(),
{
    let envelope = match exchange.receive() {
        Some(envelope) => envelope,
        None => {
            return Served::Idle;
        },
    };
    let Envelope { payload, reply_to } = envelope;
    let reply = state.handle(payload);
    let ghost given = reply;
    let result = match reply_to {
        Some(ticket) => Served::Replied(exchange.reply(ticket, reply)),
        None => Served::Handled(reply),
    };
    assert(served::<B>(
        old(exchange)@,
        old(exchange)@.mailbox.pending[0],
        given,
        exchange@,
        result,
    ));
    result
}

/// Two questions that are put to an idle actor together are handled one
/// after the other: the second in the state that the first left, each once,
/// and each asker finds the reply to its own question under its ticket,
/// whatever earlier questions have left in the table.
pub proof fn questions_are_handled_one_at_a_time<B: Behavior>(
    state: B,
    exchange: ExchangeView<B::Message, B::Reply, B::Failure>,
    first: B::Message,
    second: B::Message,
    between: (B, ExchangeView<B::Message, B::Reply, B::Failure>),
    after: (B, ExchangeView<B::Message, B::Reply, B::Failure>),
    results: (Served<B::Reply, B::Failure>, Served<B::Reply, B::Failure>),
)
    requires
        exchange.mailbox.open,
        exchange.mailbox.pending.len() == 0,
        exchange.places.len() + 1 < usize::MAX,
        stepped(state, exchange.asked(first).asked(second), between.0, between.1, results.0),
        stepped(between.0, between.1, after.0, after.1, results.1),
    ensures
        ({
            let one = exchange.next_ticket();
            let two = exchange.asked(first).next_ticket();
            &&& one != two
            &&& after.1.mailbox.pending.len() == 0
            &&& exists|a: Result<B::Reply, B::Failure>, b: Result<B::Reply, B::Failure>|
                #![auto]
                {
                    &&& B::handled(state, first, between.0, a)
                    &&& B::handled(between.0, second, after.0, b)
                    &&& after.1.answer(one, false) == outcome(ReplySlot::Fulfilled(a), false)
                    &&& after.1.answer(two, false) == outcome(ReplySlot::Fulfilled(b), false)
                }
        }),
{
    let asked_one = exchange.asked(first);
    let asked_both = asked_one.asked(second);
    let one = exchange.next_ticket();
    let two = asked_one.next_ticket();
    free_place_is_first_free(exchange.places);
    free_place_is_first_free(asked_one.places);
    fresh_ticket_is_new(asked_one);
    assert(asked_one.issued(one));
    assert(asked_both.mailbox.pending.len() == 2);
    assert(asked_both.mailbox.pending[0] == Envelope { payload: first, reply_to: Some(one) });
    assert(asked_both.mailbox.pending[1] == Envelope { payload: second, reply_to: Some(two) });
    let a = choose|a: Result<B::Reply, B::Failure>|
        #![auto]
        B::handled(state, asked_both.mailbox.pending[0].payload, between.0, a) && served::<B>(
            asked_both,
            asked_both.mailbox.pending[0],
            a,
            between.1,
            results.0,
        );
    assert(between.1.mailbox.pending.len() == 1);
    assert(between.1.mailbox.pending[0] == asked_both.mailbox.pending[1]);
    let b = choose|b: Result<B::Reply, B::Failure>|
        #![auto]
        B::handled(between.0, between.1.mailbox.pending[0].payload, after.0, b) && served::<B>(
            between.1,
            between.1.mailbox.pending[0],
            b,
            after.1,
            results.1,
        );
    assert(B::handled(state, first, between.0, a));
    assert(B::handled(between.0, second, after.0, b));
    assert(asked_both.takes_reply(one));
    assert(asked_both.takes_reply(two));
    assert(after.1.answer(one, false) == outcome(ReplySlot::Fulfilled(a), false));
    assert(after.1.answer(two, false) == outcome(ReplySlot::Fulfilled(b), false));
}

/// The payloads of the messages that wait, in their order.
pub open spec fn payloads_of<P>(envelopes: Seq<Envelope<P>>) -> Seq<P> {
    Seq::new(envelopes.len(), |i: int| envelopes[i].payload)
}

/// Whether handling `messages` one after another, each in the state that
/// the one before left, may lead from `before` to `after` and give
/// `replies`, one for each message.
pub open spec fn handled_all<B: Behavior>(
    before: B,
    messages: Seq<B::Message>,
    after: B,
    replies: Seq<Result<B::Reply, B::Failure>>,
) -> bool
    decreases messages.len(),
{
    if messages.len() == 0 {
        after == before && replies.len() == 0
    } else {
        replies.len() == messages.len() && exists|between: B|
            handled_all::<B>(before, messages.drop_last(), between, replies.drop_last())
                && #[trigger] B::handled(between, messages.last(), after, replies.last())
    }
}

/// Whether `steps` steps of an actor may lead from one state and exchange
/// to another, with nothing else touching the exchange in between.
pub open spec fn ran<B: Behavior>(
    state: B,
    exchange: ExchangeView<B::Message, B::Reply, B::Failure>,
    steps: nat,
    after_state: B,
    after_exchange: ExchangeView<B::Message, B::Reply, B::Failure>,
) -> bool
    decreases steps,
{
    if steps == 0 {
        after_state == state && after_exchange == exchange
    } else {
        exists|
            s: B,
            x: ExchangeView<B::Message, B::Reply, B::Failure>,
            r: Served<B::Reply, B::Failure>,
        |
            ran::<B>(state, exchange, (steps - 1) as nat, s, x) && #[trigger] stepped::<B>(
                s,
                x,
                after_state,
                after_exchange,
                r,
            )
    }
}

/// However many messages wait, none is lost and none is handled twice: the
/// actor's steps handle them in the order in which they wait, each one
/// whole and in the state that the one before left, and take them out of
/// the mailbox one by one.
pub proof fn messages_are_handled_in_turn<B: Behavior>(
    state: B,
    exchange: ExchangeView<B::Message, B::Reply, B::Failure>,
    steps: nat,
    after_state: B,
    after_exchange: ExchangeView<B::Message, B::Reply, B::Failure>,
)
    requires
        steps <= exchange.mailbox.pending.len(),
        ran::<B>(state, exchange, steps, after_state, after_exchange),
    ensures
        after_exchange.mailbox.pending == exchange.mailbox.pending.skip(steps as int),
        after_exchange.mailbox.open == exchange.mailbox.open,
        exists|replies: Seq<Result<B::Reply, B::Failure>>| #[trigger]
            handled_all::<B>(
                state,
                payloads_of(exchange.mailbox.pending.take(steps as int)),
                after_state,
                replies,
            ),
    decreases steps,
{
    let waiting = exchange.mailbox.pending;
    if steps == 0 {
        assert(waiting.skip(0) =~= waiting);
        assert(handled_all::<B>(
            state,
            payloads_of(waiting.take(0)),
            after_state,
            Seq::<Result<B::Reply, B::Failure>>::empty(),
        ));
    } else {
        let (s, x, r) = choose|
            s: B,
            x: ExchangeView<B::Message, B::Reply, B::Failure>,
            r: Served<B::Reply, B::Failure>,
        |
            ran::<B>(state, exchange, (steps - 1) as nat, s, x) && #[trigger] stepped::<B>(
                s,
                x,
                after_state,
                after_exchange,
                r,
            );
        messages_are_handled_in_turn::<B>(state, exchange, (steps - 1) as nat, s, x);
        let earlier = choose|replies: Seq<Result<B::Reply, B::Failure>>| #[trigger]
            handled_all::<B>(state, payloads_of(waiting.take(steps - 1)), s, replies);
        assert(x.mailbox.pending.len() > 0);
        assert(x.mailbox.pending[0] == waiting[steps - 1]);
        let reply = choose|reply: Result<B::Reply, B::Failure>|
            #![auto]
            B::handled(s, x.mailbox.pending[0].payload, after_state, reply) && served::<B>(
                x,
                x.mailbox.pending[0],
                reply,
                after_exchange,
                r,
            );
        assert(after_exchange.mailbox == x.mailbox.received());
        assert(after_exchange.mailbox.pending =~= waiting.skip(steps as int));
        let messages = payloads_of(waiting.take(steps as int));
        let replies = earlier.push(reply);
        assert(messages.drop_last() =~= payloads_of(waiting.take(steps - 1)));
        assert(messages.last() == waiting[steps - 1].payload);
        assert(replies.drop_last() =~= earlier);
        assert(B::handled(s, messages.last(), after_state, replies.last()));
        assert(handled_all::<B>(state, messages, after_state, replies));
    }
}

/// A step changes what one asker finds and no other: the asker whose
/// question was handled finds the reply to it, if it still waits, and every
/// other ticket has the outcome that it had before, or none as before.
pub proof fn reply_reaches_its_asker_alone<B: Behavior>(
    state: B,
    exchange: ExchangeView<B::Message, B::Reply, B::Failure>,
    after_state: B,
    after_exchange: ExchangeView<B::Message, B::Reply, B::Failure>,
    result: Served<B::Reply, B::Failure>,
    other: Ticket,
    timed_out: bool,
)
    requires
        exchange.mailbox.pending.len() > 0,
        stepped::<B>(state, exchange, after_state, after_exchange, result),
    ensures
        exchange.mailbox.pending[0].reply_to != Some(other) ==> after_exchange.answer(
            other,
            timed_out,
        ) == exchange.answer(other, timed_out),
        match exchange.mailbox.pending[0].reply_to {
            Some(ticket) => exchange.takes_reply(ticket) ==> exists|
                reply: Result<B::Reply, B::Failure>,
            |
                #![auto]
                B::handled(state, exchange.mailbox.pending[0].payload, after_state, reply)
                    && after_exchange.answer(ticket, timed_out) == outcome(
                    ReplySlot::Fulfilled(reply),
                    timed_out,
                ),
            None => true,
        },
{
    let reply = choose|reply: Result<B::Reply, B::Failure>|
        #![auto]
        B::handled(state, exchange.mailbox.pending[0].payload, after_state, reply) && served::<B>(
            exchange,
            exchange.mailbox.pending[0],
            reply,
            after_exchange,
            result,
        );
    match exchange.mailbox.pending[0].reply_to {
        Some(ticket) => {
            if exchange.takes_reply(ticket) {
                assert(after_exchange.answer(ticket, timed_out) == outcome(
                    ReplySlot::Fulfilled(reply),
                    timed_out,
                ));
            }
        },
        None => {},
    }
}

} // verus!
