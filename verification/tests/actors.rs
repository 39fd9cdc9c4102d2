use dashboard_server::actor::{serve, Behavior, Served};
use dashboard_server::ask::{AskError, ReplySlot};
use dashboard_server::exchange::{Envelope, Exchange, Ticket};
use dashboard_server::mailbox::{Closed, Mailbox};

#[test]
fn messages_are_received_in_send_order() {
    let mut mailbox: Mailbox<u64> = Mailbox::new();
    for sequence in 0..50u64 {
        assert_eq!(mailbox.send(sequence), Ok(()));
    }
    assert_eq!(mailbox.len(), 50);
    for expected in 0..50u64 {
        assert_eq!(mailbox.receive(), Some(expected));
    }
    assert_eq!(mailbox.receive(), None);
    assert!(mailbox.is_open());
}

#[test]
fn one_senders_messages_keep_their_order_among_others() {
    let mut mailbox: Mailbox<(char, u64)> = Mailbox::new();
    let mut next_a = 0;
    let mut next_b = 0;
    for turn in 0..30 {
        if turn % 3 == 0 {
            mailbox.send(('b', next_b)).unwrap();
            next_b += 1;
        } else {
            mailbox.send(('a', next_a)).unwrap();
            next_a += 1;
        }
    }
    let mut seen_a = 0;
    let mut seen_b = 0;
    while let Some((sender, sequence)) = mailbox.receive() {
        if sender == 'a' {
            assert_eq!(sequence, seen_a);
            seen_a += 1;
        } else {
            assert_eq!(sequence, seen_b);
            seen_b += 1;
        }
    }
    assert_eq!((seen_a, seen_b), (20, 10));
}

#[test]
fn closed_mailbox_hands_the_message_back() {
    let mut mailbox: Mailbox<&str> = Mailbox::new();
    mailbox.send("first").unwrap();
    mailbox.send("second").unwrap();
    assert_eq!(mailbox.close(), vec!["first", "second"]);
    assert!(!mailbox.is_open());
    assert_eq!(mailbox.len(), 0);
    assert_eq!(mailbox.send("third"), Err(Closed("third")));
    assert_eq!(mailbox.receive(), None);
    assert_eq!(mailbox.close(), Vec::<&str>::new());
}

#[test]
fn reply_slot_takes_one_reply() {
    let mut slot: ReplySlot<u32, String> = ReplySlot::new();
    assert_eq!(slot, ReplySlot::Waiting);
    assert_eq!(slot.collect(false), None);
    assert_eq!(slot, ReplySlot::Waiting);
    assert_eq!(slot.fulfill(Ok(7)), Ok(()));
    assert_eq!(slot.fulfill(Ok(8)), Err(Ok(8)));
    assert!(!slot.reject());
    assert_eq!(slot.collect(false), Some(Ok(7)));
    assert_eq!(slot, ReplySlot::Spent);
    assert_eq!(slot.collect(true), None);
}

#[test]
fn reply_slot_passes_the_actors_own_error_through() {
    let mut slot: ReplySlot<u32, String> = ReplySlot::new();
    slot.fulfill(Err("no such row".to_string())).unwrap();
    assert_eq!(slot.collect(true), Some(Err(AskError::Domain("no such row".to_string()))));
}

#[test]
fn reply_after_the_deadline_is_dropped() {
    let mut slot: ReplySlot<u32, ()> = ReplySlot::new();
    assert_eq!(slot.collect(true), Some(Err(AskError::Timeout)));
    assert_eq!(slot, ReplySlot::Spent);
    assert_eq!(slot.fulfill(Ok(1)), Err(Ok(1)));
    assert!(!slot.reject());
    assert_eq!(slot, ReplySlot::Spent);
}

#[test]
fn rejected_slot_reports_that_the_actor_is_gone() {
    let mut slot: ReplySlot<u32, ()> = ReplySlot::new();
    assert!(slot.reject());
    assert_eq!(slot, ReplySlot::Gone);
    assert_eq!(slot.fulfill(Ok(1)), Err(Ok(1)));
    assert_eq!(slot.collect(false), Some(Err(AskError::ActorGone)));
}

#[test]
fn ask_of_a_stopped_actor_is_actor_gone() {
    let mut exchange: Exchange<&str, u32, ()> = Exchange::new();
    assert!(exchange.is_open());
    assert_eq!(exchange.stop(), vec![]);
    assert!(!exchange.is_open());
    assert_eq!(exchange.ask("anyone there"), Err(AskError::ActorGone));
    assert_eq!(exchange.tell("hello"), Err(Closed("hello")));
    assert_eq!(exchange.pending(), 0);
    assert_eq!(exchange.places(), 0);
}

fn ticket(place: usize, generation: u64) -> Ticket {
    Ticket { place, generation }
}

#[test]
fn ask_that_waits_when_the_actor_stops_is_actor_gone() {
    let mut exchange: Exchange<&str, u32, ()> = Exchange::new();
    let first = exchange.ask("one").unwrap();
    let second = exchange.ask("two").unwrap();
    assert_eq!((first, second), (ticket(0, 0), ticket(1, 0)));
    assert_eq!(exchange.collect(first, false), None);
    let taken = exchange.receive().unwrap();
    assert_eq!(taken, Envelope { payload: "one", reply_to: Some(first) });
    assert!(exchange.reply(first, Ok(11)));
    let left = exchange.stop();
    assert_eq!(left, vec![Envelope { payload: "two", reply_to: Some(second) }]);
    assert_eq!(exchange.collect(first, false), Some(Ok(11)));
    assert_eq!(exchange.collect(second, false), Some(Err(AskError::ActorGone)));
    assert!(!exchange.reply(second, Ok(22)));
}

#[test]
fn late_reply_does_not_reach_a_later_asker() {
    let mut exchange: Exchange<u8, u32, ()> = Exchange::new();
    let old = exchange.ask(1).unwrap();
    assert_eq!(exchange.collect(old, true), Some(Err(AskError::Timeout)));
    let new = exchange.ask(2).unwrap();
    assert_eq!((old, new), (ticket(0, 0), ticket(0, 1)));
    assert_eq!(exchange.places(), 1);
    assert_eq!(exchange.receive(), Some(Envelope { payload: 1, reply_to: Some(old) }));
    assert!(!exchange.reply(old, Ok(100)));
    assert_eq!(exchange.collect(new, false), None);
    assert_eq!(exchange.collect(old, false), None);
    assert_eq!(exchange.receive(), Some(Envelope { payload: 2, reply_to: Some(new) }));
    assert!(exchange.reply(new, Ok(200)));
    assert!(!exchange.reply(new, Ok(201)));
    assert_eq!(exchange.collect(old, true), None);
    assert_eq!(exchange.collect(new, false), Some(Ok(200)));
}

#[test]
fn late_reply_to_a_question_in_hand_is_dropped() {
    let mut exchange: Exchange<u8, u32, ()> = Exchange::new();
    let old = exchange.ask(1).unwrap();
    let in_hand = exchange.receive().unwrap();
    assert_eq!(exchange.collect(old, true), Some(Err(AskError::Timeout)));
    let new = exchange.ask(2).unwrap();
    assert_eq!(new, ticket(0, 1));
    assert!(!exchange.reply(in_hand.reply_to.unwrap(), Ok(100)));
    assert_eq!(exchange.collect(new, false), None);
}

#[test]
fn every_question_gets_a_ticket_of_its_own() {
    let mut exchange: Exchange<u8, u8, ()> = Exchange::new();
    assert_eq!(exchange.ask(1), Ok(ticket(0, 0)));
    assert_eq!(exchange.ask(2), Ok(ticket(1, 0)));
    assert!(exchange.is_current(ticket(0, 0)));
    assert!(!exchange.is_current(ticket(0, 1)));
    assert!(!exchange.is_current(ticket(2, 0)));
    assert_eq!(exchange.collect(ticket(0, 0), true), Some(Err(AskError::Timeout)));
    assert_eq!(exchange.ask(3), Ok(ticket(0, 1)));
    assert_eq!(exchange.ask(4), Ok(ticket(2, 0)));
    assert_eq!(exchange.places(), 3);
    assert!(!exchange.is_current(ticket(0, 0)));
    assert!(!exchange.reply(ticket(7, 0), Ok(9)));
    assert_eq!(exchange.collect(ticket(7, 0), true), None);
    let mut seen = Vec::new();
    while let Some(envelope) = exchange.receive() {
        seen.push((envelope.payload, envelope.reply_to.unwrap()));
    }
    assert_eq!(
        seen,
        vec![(1, ticket(0, 0)), (2, ticket(1, 0)), (3, ticket(0, 1)), (4, ticket(2, 0))]
    );
}

struct Counter {
    value: u64,
}

enum CounterMessage {
    Increment(u64),
    Get,
    Fail,
}

impl Behavior for Counter {
    type Message = CounterMessage;
    type Reply = u64;
    type Failure = String;

    fn handle(&mut self, message: CounterMessage) -> Result<u64, String> {
        match message {
            CounterMessage::Increment(by) => {
                self.value += by;
                Ok(self.value)
            }
            CounterMessage::Get => Ok(self.value),
            CounterMessage::Fail => Err("refused".to_string()),
        }
    }
}

#[test]
fn hundred_increments_are_all_applied() {
    let mut counter = Counter { value: 0 };
    let mut exchange: Exchange<CounterMessage, u64, String> = Exchange::new();
    let mut tickets = Vec::new();
    for _ in 0..100 {
        tickets.push(exchange.ask(CounterMessage::Increment(1)).unwrap());
    }
    assert_eq!(exchange.pending(), 100);
    let mut served = 0;
    while serve(&mut counter, &mut exchange) != Served::Idle {
        served += 1;
    }
    assert_eq!(served, 100);
    let mut replies = Vec::new();
    for ticket in tickets.iter().rev() {
        replies.push(exchange.collect(*ticket, false).unwrap().unwrap());
    }
    replies.sort();
    assert_eq!(replies, (1..=100).collect::<Vec<u64>>());
    let last = exchange.ask(CounterMessage::Get).unwrap();
    assert_eq!(serve(&mut counter, &mut exchange), Served::Replied(true));
    assert_eq!(exchange.collect(last, false), Some(Ok(100)));
}

#[test]
fn two_increments_asked_together_are_both_applied() {
    let mut counter = Counter { value: 5 };
    let mut exchange: Exchange<CounterMessage, u64, String> = Exchange::new();
    let a = exchange.ask(CounterMessage::Increment(1)).unwrap();
    let b = exchange.ask(CounterMessage::Increment(1)).unwrap();
    assert_eq!(serve(&mut counter, &mut exchange), Served::Replied(true));
    assert_eq!(serve(&mut counter, &mut exchange), Served::Replied(true));
    assert_eq!(serve(&mut counter, &mut exchange), Served::Idle);
    assert_eq!(exchange.collect(b, false), Some(Ok(7)));
    assert_eq!(exchange.collect(a, false), Some(Ok(6)));
    assert_eq!(counter.value, 7);
}

#[test]
fn serve_hands_back_what_nobody_waits_for() {
    let mut counter = Counter { value: 0 };
    let mut exchange: Exchange<CounterMessage, u64, String> = Exchange::new();
    exchange.tell(CounterMessage::Increment(3)).ok().unwrap();
    exchange.tell(CounterMessage::Fail).ok().unwrap();
    assert_eq!(serve(&mut counter, &mut exchange), Served::Handled(Ok(3)));
    assert_eq!(serve(&mut counter, &mut exchange), Served::Handled(Err("refused".to_string())));
    assert_eq!(serve(&mut counter, &mut exchange), Served::Idle);
}

#[test]
fn serve_drops_the_reply_to_an_asker_that_gave_up() {
    let mut counter = Counter { value: 0 };
    let mut exchange: Exchange<CounterMessage, u64, String> = Exchange::new();
    let ticket = exchange.ask(CounterMessage::Increment(2)).unwrap();
    assert_eq!(exchange.collect(ticket, true), Some(Err(AskError::Timeout)));
    assert_eq!(serve(&mut counter, &mut exchange), Served::Replied(false));
    assert_eq!(counter.value, 2);
    assert_eq!(exchange.collect(ticket, false), None);
}

#[test]
fn ask_passes_the_actors_error_through() {
    let mut counter = Counter { value: 0 };
    let mut exchange: Exchange<CounterMessage, u64, String> = Exchange::new();
    let ticket = exchange.ask(CounterMessage::Fail).unwrap();
    assert_eq!(serve(&mut counter, &mut exchange), Served::Replied(true));
    assert_eq!(
        exchange.collect(ticket, false),
        Some(Err(AskError::Domain("refused".to_string())))
    );
}
