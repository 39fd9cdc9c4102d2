use dashboard_server::actor::{serve, Behavior, Served};
use dashboard_server::codec::Encode;
use dashboard_server::events::{publish, Broadcast, Event, Frontend, FrontendMessage};
use dashboard_server::exchange::{Envelope, Exchange};
use dashboard_server::records::NodeStatus;
use dashboard_server::value::{Field, Value};

fn text(s: &str) -> Value {
    Value::Text(s.to_string())
}

fn record(fields: Vec<(&str, Value)>) -> Value {
    Value::Record(
        fields.into_iter().map(|(name, value)| Field { name: name.to_string(), value }).collect(),
    )
}

fn line(n: u64) -> Event {
    Event::LogLine { name: "alice".to_string(), line: format!("line {}", n) }
}

fn encoded_line(n: u64) -> Value {
    record(vec![
        ("type", text("logLine")),
        ("name", text("alice")),
        ("line", text(&format!("line {}", n))),
    ])
}

#[test]
fn events_are_encoded_with_their_kind() {
    assert_eq!(
        Event::NodeConnected { name: "alice".to_string() }.encode(),
        record(vec![("type", text("nodeConnected")), ("name", text("alice"))])
    );
    assert_eq!(
        Event::NodeDisconnected { name: "bob".to_string() }.encode(),
        record(vec![("type", text("nodeDisconnected")), ("name", text("bob"))])
    );
    assert_eq!(
        Event::StatusChanged { name: "bob".to_string(), status: NodeStatus::Updating }.encode(),
        record(vec![
            ("type", text("statusChanged")),
            ("name", text("bob")),
            ("status", text("Updating")),
        ])
    );
    assert_eq!(line(3).encode(), encoded_line(3));
}

#[test]
fn every_attached_socket_gets_every_event_in_order() {
    let mut frontend = Frontend::new();
    for socket in [10u64, 20, 30] {
        frontend.handle(FrontendMessage::Attach(socket)).unwrap();
    }
    let mut seen: Vec<(u64, Vec<Value>)> = vec![(10, vec![]), (20, vec![]), (30, vec![])];
    for n in 0..5 {
        let broadcast = frontend.handle(FrontendMessage::Publish(line(n))).unwrap();
        assert_eq!(broadcast.to, vec![10, 20, 30]);
        for socket in broadcast.to.iter() {
            let entry = seen.iter_mut().find(|(id, _)| id == socket).unwrap();
            entry.1.push(encoded_line(n));
        }
        assert_eq!(broadcast.message, encoded_line(n));
    }
    for (_, events) in seen.iter() {
        assert_eq!(events, &(0..5).map(encoded_line).collect::<Vec<Value>>());
    }
}

#[test]
fn detached_socket_gets_only_what_came_before() {
    let mut frontend = Frontend::new();
    frontend.handle(FrontendMessage::Attach(1)).unwrap();
    frontend.handle(FrontendMessage::Attach(2)).unwrap();
    let mut to_one = Vec::new();
    let mut to_two = Vec::new();
    for n in 0..6 {
        if n == 2 {
            let none = frontend.handle(FrontendMessage::Detach(1)).unwrap();
            assert_eq!(none, Broadcast { to: vec![], message: Value::Null });
        }
        let broadcast = frontend.handle(FrontendMessage::Publish(line(n))).unwrap();
        if broadcast.to.contains(&1) {
            to_one.push(n);
        }
        if broadcast.to.contains(&2) {
            to_two.push(n);
        }
    }
    assert_eq!(to_one, vec![0, 1]);
    assert_eq!(to_two, vec![0, 1, 2, 3, 4, 5]);
    assert!(!frontend.is_attached(1));
    assert!(frontend.is_attached(2));
    assert_eq!(frontend.len(), 1);
}

#[test]
fn socket_is_attached_once() {
    let mut frontend = Frontend::new();
    frontend.handle(FrontendMessage::Attach(7)).unwrap();
    frontend.handle(FrontendMessage::Attach(7)).unwrap();
    assert_eq!(frontend.len(), 1);
    let broadcast = frontend.handle(FrontendMessage::Publish(line(0))).unwrap();
    assert_eq!(broadcast.to, vec![7]);
    frontend.handle(FrontendMessage::Detach(8)).unwrap();
    assert_eq!(frontend.len(), 1);
    frontend.handle(FrontendMessage::Detach(7)).unwrap();
    assert_eq!(frontend.len(), 0);
    let nobody = frontend.handle(FrontendMessage::Publish(line(1))).unwrap();
    assert_eq!(nobody.to, Vec::<u64>::new());
}

#[test]
fn publish_forwards_to_the_frontend_actor() {
    let mut exchange: Exchange<FrontendMessage, Broadcast, ()> = Exchange::new();
    let mut frontend = Frontend::new();
    exchange.tell(FrontendMessage::Attach(4)).ok().unwrap();
    assert!(publish(&mut exchange, line(0)));
    assert!(publish(&mut exchange, line(1)));
    assert_eq!(exchange.pending(), 3);
    assert_eq!(
        serve(&mut frontend, &mut exchange),
        Served::Handled(Ok(Broadcast { to: vec![], message: Value::Null }))
    );
    assert_eq!(
        serve(&mut frontend, &mut exchange),
        Served::Handled(Ok(Broadcast { to: vec![4], message: encoded_line(0) }))
    );
    assert_eq!(
        serve(&mut frontend, &mut exchange),
        Served::Handled(Ok(Broadcast { to: vec![4], message: encoded_line(1) }))
    );
    assert_eq!(serve(&mut frontend, &mut exchange), Served::Idle);
}

#[test]
fn publish_to_a_stopped_frontend_drops_the_event() {
    let mut exchange: Exchange<FrontendMessage, Broadcast, ()> = Exchange::new();
    publish(&mut exchange, line(0));
    let left = exchange.stop();
    assert_eq!(
        left,
        vec![Envelope { payload: FrontendMessage::Publish(line(0)), reply_to: None }]
    );
    assert!(!publish(&mut exchange, line(1)));
    assert_eq!(exchange.pending(), 0);
}
