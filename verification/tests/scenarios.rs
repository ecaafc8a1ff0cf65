use std::collections::{HashMap, HashSet};

use selium_core::codec::StringCodec;
use selium_core::endpoint::{Incoming, Publisher, Received, StreamConfig, StreamPhase, Subscriber};
use selium_core::error::ErrorKind;
use selium_core::frame::{Frame, FrameCodec};
use selium_core::handshake::{Reply, Role};
use selium_core::router::{Router, SendOutcome};
use selium_core::session::{Action, Phase, Session};

/// A server without a network: streams are byte queues in both directions,
/// and every frame crosses them in its wire form.
struct Broker {
    codec: FrameCodec,
    router: Router,
    sessions: HashMap<u64, Session>,
    to_server: HashMap<u64, Vec<u8>>,
    to_client: HashMap<u64, Vec<u8>>,
    stalled: HashSet<u64>,
    closed_by_server: HashSet<u64>,
}

impl Broker {
    fn new() -> Broker {
        Broker {
            codec: FrameCodec::new(),
            router: Router::new(),
            sessions: HashMap::new(),
            to_server: HashMap::new(),
            to_client: HashMap::new(),
            stalled: HashSet::new(),
            closed_by_server: HashSet::new(),
        }
    }

    fn accept(&mut self, key: u64) {
        self.sessions.insert(key, Session::new(key));
        self.to_server.insert(key, Vec::new());
        self.to_client.insert(key, Vec::new());
    }

    fn push_to_client(&mut self, key: u64, frame: &Frame) {
        let queue = self.to_client.get_mut(&key).unwrap();
        self.codec.encode(frame, queue).unwrap();
    }

    fn client_sends(&mut self, key: u64, frame: &Frame) {
        let queue = self.to_server.get_mut(&key).unwrap();
        self.codec.encode(frame, queue).unwrap();
        self.serve(key);
    }

    fn serve(&mut self, key: u64) {
        loop {
            let queue = self.to_server.get_mut(&key).unwrap();
            let frame = match self.codec.decode(queue).unwrap() {
                Some(frame) => frame,
                None => return,
            };
            let session = self.sessions.get_mut(&key).unwrap();
            let action = session.on_frame(&mut self.router, frame);
            let topic = session.topic().to_owned();
            match action {
                Action::Reply(reply) => self.push_to_client(key, &reply),
                Action::Refuse(reply) => {
                    self.push_to_client(key, &reply);
                    self.closed_by_server.insert(key);
                }
                Action::Broadcast { subscribers, frame } => {
                    for subscriber in subscribers {
                        let outcome = if self.stalled.contains(&subscriber) {
                            SendOutcome::TimedOut
                        } else {
                            self.push_to_client(subscriber, &frame);
                            SendOutcome::Delivered
                        };
                        if let Some(close) = self.router.settle(&topic, subscriber, outcome) {
                            self.push_to_client(subscriber, &close);
                            self.closed_by_server.insert(subscriber);
                            self.sessions.get_mut(&subscriber).unwrap().on_end(&mut self.router);
                        }
                    }
                }
                Action::Nothing => {}
            }
        }
    }

    fn client_ends(&mut self, key: u64) {
        self.sessions.get_mut(&key).unwrap().on_end(&mut self.router);
    }

    fn client_reads(&mut self, key: u64) -> Incoming {
        let queue = self.to_client.get_mut(&key).unwrap();
        match self.codec.decode(queue).unwrap() {
            Some(frame) => Incoming::Frame(frame),
            None => Incoming::End,
        }
    }

    fn pending(&self, key: u64) -> usize {
        self.to_client[&key].len()
    }
}

fn open_publisher(broker: &mut Broker, key: u64, topic: &str) -> Publisher<StringCodec> {
    let mut publisher = Publisher::new(StringCodec);
    broker.accept(key);
    let first = StreamConfig::new(topic).open_frame(Role::Publisher).unwrap();
    broker.client_sends(key, &first);
    match broker.client_reads(key) {
        Incoming::Frame(reply) => assert_eq!(publisher.on_reply(reply), Reply::Accepted),
        other => panic!("no reply: {other:?}"),
    }
    publisher
}

fn open_subscriber(broker: &mut Broker, key: u64, topic: &str) -> Subscriber<StringCodec> {
    let mut subscriber = Subscriber::new(StringCodec);
    broker.accept(key);
    let first = StreamConfig::new(topic).open_frame(Role::Subscriber).unwrap();
    broker.client_sends(key, &first);
    match broker.client_reads(key) {
        Incoming::Frame(reply) => assert_eq!(subscriber.on_reply(reply), Reply::Accepted),
        other => panic!("no reply: {other:?}"),
    }
    subscriber
}

fn publish(broker: &mut Broker, key: u64, publisher: &Publisher<StringCodec>, text: &str) {
    let frame = publisher.send(text.to_owned()).unwrap();
    broker.client_sends(key, &frame);
}

fn next(broker: &mut Broker, key: u64, subscriber: &mut Subscriber<StringCodec>) -> Received<String> {
    let incoming = broker.client_reads(key);
    subscriber.next(incoming)
}

fn drain(broker: &mut Broker, key: u64, subscriber: &mut Subscriber<StringCodec>) -> Vec<String> {
    let mut items = Vec::new();
    while broker.pending(key) > 0 {
        match next(broker, key, subscriber) {
            Received::Item(item) => items.push(item),
            other => panic!("not an item: {other:?}"),
        }
    }
    items
}

#[test]
fn string_round_trip() {
    let mut broker = Broker::new();
    let mut subscriber = open_subscriber(&mut broker, 1, "/t/1");
    let publisher = open_publisher(&mut broker, 2, "/t/1");
    publish(&mut broker, 2, &publisher, "Hello, world!");
    assert_eq!(next(&mut broker, 1, &mut subscriber), Received::Item("Hello, world!".to_owned()));
}

#[test]
fn fan_out() {
    let mut broker = Broker::new();
    let mut subscribers: Vec<(u64, Subscriber<StringCodec>)> =
        (1..=3).map(|key| (key, open_subscriber(&mut broker, key, "/t/2"))).collect();
    let publisher = open_publisher(&mut broker, 10, "/t/2");
    for text in ["a", "b", "c"] {
        publish(&mut broker, 10, &publisher, text);
    }
    for (key, subscriber) in subscribers.iter_mut() {
        assert_eq!(drain(&mut broker, *key, subscriber), vec!["a", "b", "c"]);
    }
}

#[test]
fn late_subscriber() {
    let mut broker = Broker::new();
    let publisher = open_publisher(&mut broker, 1, "/t/3");
    publish(&mut broker, 1, &publisher, "x");
    let mut subscriber = open_subscriber(&mut broker, 2, "/t/3");
    publish(&mut broker, 1, &publisher, "y");
    assert_eq!(drain(&mut broker, 2, &mut subscriber), vec!["y"]);
}

#[test]
fn late_subscriber_after_many_messages_receives_none_of_them() {
    let mut broker = Broker::new();
    let publisher = open_publisher(&mut broker, 1, "/t/3");
    for i in 0..100 {
        publish(&mut broker, 1, &publisher, &format!("early {i}"));
    }
    let mut subscriber = open_subscriber(&mut broker, 2, "/t/3");
    assert_eq!(broker.pending(2), 0);
    assert_eq!(drain(&mut broker, 2, &mut subscriber), Vec::<String>::new());
}

#[test]
fn invalid_topic() {
    assert_eq!(
        StreamConfig::new("no-slash").open_frame(Role::Subscriber),
        Err(ErrorKind::InvalidTopic)
    );
    let mut broker = Broker::new();
    let mut subscriber = Subscriber::new(StringCodec);
    broker.accept(1);
    let first = Frame::RegisterSubscriber { topic: b"no-slash".to_vec(), keep_alive_ms: 0 };
    broker.client_sends(1, &first);
    let reply = match broker.client_reads(1) {
        Incoming::Frame(reply) => reply,
        other => panic!("no reply: {other:?}"),
    };
    assert_eq!(reply, Frame::Error { reason: b"invalid topic".to_vec() });
    assert_eq!(subscriber.on_reply(reply), Reply::Refused(b"invalid topic".to_vec()));
    assert_eq!(subscriber.stream_phase(), StreamPhase::Closed);
    assert!(broker.closed_by_server.contains(&1));
    assert_eq!(broker.sessions[&1].phase(), Phase::Closed);
    assert!(broker.router.is_idle());
}

#[test]
fn slow_subscriber_isolation() {
    let mut broker = Broker::new();
    let mut fast = open_subscriber(&mut broker, 1, "/t/4");
    let mut slow = open_subscriber(&mut broker, 2, "/t/4");
    let publisher = open_publisher(&mut broker, 3, "/t/4");
    let mut got = Vec::new();
    for i in 0..10_000 {
        if i == 10 {
            broker.stalled.insert(2);
        }
        publish(&mut broker, 3, &publisher, &format!("m{i}"));
        got.extend(drain(&mut broker, 1, &mut fast));
    }
    let expected: Vec<String> = (0..10_000).map(|i| format!("m{i}")).collect();
    assert_eq!(got, expected);
    assert_eq!(fast.stream_phase(), StreamPhase::Open);
    assert_eq!(broker.router.subscribers("/t/4"), vec![1]);
    for i in 0..10 {
        assert_eq!(next(&mut broker, 2, &mut slow), Received::Item(format!("m{i}")));
    }
    assert_eq!(
        next(&mut broker, 2, &mut slow),
        Received::Closed(ErrorKind::SlowSubscriber.describe().as_bytes().to_vec())
    );
    assert_eq!(slow.stream_phase(), StreamPhase::Closed);
    assert_eq!(broker.pending(2), 0);
    assert!(broker.closed_by_server.contains(&2));
    assert!(!broker.closed_by_server.contains(&1));
    assert_eq!(broker.sessions[&2].phase(), Phase::Closed);
}

#[test]
fn per_publisher_ordering_across_streams() {
    let mut broker = Broker::new();
    let mut subscriber = open_subscriber(&mut broker, 100, "/t/5");
    let publishers: Vec<(u64, Publisher<StringCodec>)> =
        (0..4).map(|p| (p, open_publisher(&mut broker, p, "/t/5"))).collect();
    let mut received = Vec::new();
    let mut sent = [0usize; 4];
    let mut turn = 0usize;
    while sent.iter().any(|n| *n < 1_000) {
        let p = (turn * 7 + turn / 3) % 4;
        turn += 1;
        if sent[p] == 1_000 {
            continue;
        }
        publish(&mut broker, p as u64, &publishers[p].1, &format!("{p}:{}", sent[p]));
        sent[p] += 1;
        received.extend(drain(&mut broker, 100, &mut subscriber));
    }
    assert_eq!(received.len(), 4_000);
    for p in 0..4 {
        let prefix = format!("{p}:");
        let from_p: Vec<&String> = received.iter().filter(|m| m.starts_with(&prefix)).collect();
        let expected: Vec<String> = (0..1_000).map(|i| format!("{p}:{i}")).collect();
        assert_eq!(from_p, expected.iter().collect::<Vec<_>>());
    }
}

#[test]
fn publisher_finishing_leaves_what_was_routed_and_sends_no_more() {
    let mut broker = Broker::new();
    let mut subscriber = open_subscriber(&mut broker, 1, "/t/6");
    let mut leaving = open_publisher(&mut broker, 2, "/t/6");
    let staying = open_publisher(&mut broker, 3, "/t/6");
    for i in 0..5 {
        publish(&mut broker, 2, &leaving, &format!("in flight {i}"));
    }
    assert!(leaving.finish());
    broker.client_ends(2);
    assert_eq!(leaving.send("after".to_owned()), Err(ErrorKind::TransportClosed));
    broker.client_sends(2, &Frame::Message { body: b"forged".to_vec() });
    publish(&mut broker, 3, &staying, "other");
    let expected: Vec<String> =
        (0..5).map(|i| format!("in flight {i}")).chain(["other".to_owned()]).collect();
    assert_eq!(drain(&mut broker, 1, &mut subscriber), expected);
    assert_eq!(broker.router.publisher_count("/t/6"), 1);
}

#[test]
fn hub_is_removed_when_the_last_stream_goes() {
    let mut broker = Broker::new();
    open_subscriber(&mut broker, 1, "/t/7");
    open_publisher(&mut broker, 2, "/t/7");
    assert!(broker.router.has_hub("/t/7"));
    broker.client_ends(1);
    assert!(broker.router.has_hub("/t/7"));
    broker.client_ends(2);
    assert!(!broker.router.has_hub("/t/7"));
    assert!(broker.router.is_idle());
}

#[test]
fn zero_byte_message_reaches_the_subscriber() {
    let mut broker = Broker::new();
    let mut subscriber = open_subscriber(&mut broker, 1, "/t/8");
    let publisher = open_publisher(&mut broker, 2, "/t/8");
    publish(&mut broker, 2, &publisher, "");
    assert_eq!(broker.pending(1), 5);
    assert_eq!(next(&mut broker, 1, &mut subscriber), Received::Item(String::new()));
}

#[test]
fn two_subscribers_from_one_connection_are_independent() {
    let mut broker = Broker::new();
    let mut first = open_subscriber(&mut broker, 4, "/t/9");
    let mut second = open_subscriber(&mut broker, 8, "/t/9");
    let publisher = open_publisher(&mut broker, 12, "/t/9");
    publish(&mut broker, 12, &publisher, "one");
    broker.client_ends(4);
    publish(&mut broker, 12, &publisher, "two");
    assert_eq!(drain(&mut broker, 4, &mut first), vec!["one"]);
    assert_eq!(drain(&mut broker, 8, &mut second), vec!["one", "two"]);
}
