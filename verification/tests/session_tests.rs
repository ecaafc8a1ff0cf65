use selium_core::frame::Frame;
use selium_core::handshake::{register, Role};
use selium_core::router::Router;
use selium_core::session::{Action, Phase, Session};

fn open(router: &mut Router, key: u64, role: Role, topic: &str) -> Session {
    let mut session = Session::new(key);
    let action = session.on_frame(router, register(role, topic, None).unwrap());
    assert_eq!(action, Action::Reply(Frame::Ack));
    session
}

fn violation() -> Frame {
    Frame::Error { reason: b"malformed frame".to_vec() }
}

#[test]
fn new_session_is_opening() {
    let session = Session::new(12);
    assert_eq!(session.phase(), Phase::Opening);
    assert_eq!(session.key(), 12);
    assert_eq!(session.topic(), "");
}

#[test]
fn publisher_registration_attaches_and_is_acknowledged() {
    let mut router = Router::new();
    let session = open(&mut router, 0, Role::Publisher, "/t/1");
    assert_eq!(session.phase(), Phase::Publishing);
    assert_eq!(session.topic(), "/t/1");
    assert_eq!(router.publisher_count("/t/1"), 1);
    assert_eq!(router.subscriber_count("/t/1"), 0);
}

#[test]
fn subscriber_registration_attaches_under_the_session_key() {
    let mut router = Router::new();
    let session = open(&mut router, 44, Role::Subscriber, "/t/1");
    assert_eq!(session.phase(), Phase::Subscribed);
    assert_eq!(session.topic(), "/t/1");
    assert_eq!(router.subscribers("/t/1"), vec![44]);
    assert_eq!(router.publisher_count("/t/1"), 0);
}

#[test]
fn invalid_topic_is_refused_and_nothing_is_attached() {
    let mut router = Router::new();
    let mut session = Session::new(1);
    let first = Frame::RegisterSubscriber { topic: b"no-slash".to_vec(), keep_alive_ms: 0 };
    let action = session.on_frame(&mut router, first);
    assert_eq!(action, Action::Refuse(Frame::Error { reason: b"invalid topic".to_vec() }));
    assert_eq!(session.phase(), Phase::Closed);
    assert!(router.is_idle());
}

#[test]
fn first_frame_that_registers_nothing_is_refused() {
    for first in [Frame::Ack, Frame::Message { body: vec![1] }, Frame::Error { reason: vec![] }] {
        let mut router = Router::new();
        let mut session = Session::new(1);
        let action = session.on_frame(&mut router, first);
        assert_eq!(action, Action::Refuse(Frame::Error { reason: b"handshake".to_vec() }));
        assert_eq!(session.phase(), Phase::Closed);
        assert!(router.is_idle());
    }
}

#[test]
fn handshake_timeout_refuses_an_opening_stream_only() {
    let mut router = Router::new();
    let mut opening = Session::new(1);
    assert_eq!(
        opening.on_timeout(),
        Action::Refuse(Frame::Error { reason: b"handshake".to_vec() })
    );
    assert_eq!(opening.phase(), Phase::Closed);
    assert_eq!(opening.on_timeout(), Action::Nothing);
    let mut publisher = open(&mut router, 2, Role::Publisher, "/t");
    assert_eq!(publisher.on_timeout(), Action::Nothing);
    assert_eq!(publisher.phase(), Phase::Publishing);
    let mut subscriber = open(&mut router, 3, Role::Subscriber, "/t");
    assert_eq!(subscriber.on_timeout(), Action::Nothing);
    assert_eq!(subscriber.phase(), Phase::Subscribed);
}

#[test]
fn message_goes_to_the_subscribers_of_the_moment() {
    let mut router = Router::new();
    let mut publisher = open(&mut router, 0, Role::Publisher, "/t");
    let message = Frame::Message { body: b"m1".to_vec() };
    assert_eq!(
        publisher.on_frame(&mut router, message.clone()),
        Action::Broadcast { subscribers: vec![], frame: message.clone() }
    );
    open(&mut router, 7, Role::Subscriber, "/t");
    open(&mut router, 5, Role::Subscriber, "/t");
    open(&mut router, 9, Role::Subscriber, "/elsewhere");
    assert_eq!(
        publisher.on_frame(&mut router, message.clone()),
        Action::Broadcast { subscribers: vec![7, 5], frame: message }
    );
    assert_eq!(publisher.phase(), Phase::Publishing);
    assert_eq!(router.publisher_count("/t"), 1);
}

#[test]
fn empty_message_is_routed_like_any_other() {
    let mut router = Router::new();
    let mut publisher = open(&mut router, 0, Role::Publisher, "/t");
    open(&mut router, 1, Role::Subscriber, "/t");
    assert_eq!(
        publisher.on_frame(&mut router, Frame::Message { body: vec![] }),
        Action::Broadcast { subscribers: vec![1], frame: Frame::Message { body: vec![] } }
    );
}

#[test]
fn control_frame_on_a_publishing_stream_closes_it() {
    for frame in [
        Frame::Ack,
        Frame::Error { reason: vec![] },
        Frame::RegisterPublisher { topic: b"/t".to_vec(), keep_alive_ms: 0 },
        Frame::RegisterSubscriber { topic: b"/t".to_vec(), keep_alive_ms: 0 },
    ] {
        let mut router = Router::new();
        let mut publisher = open(&mut router, 0, Role::Publisher, "/t");
        assert_eq!(publisher.on_frame(&mut router, frame), Action::Refuse(violation()));
        assert_eq!(publisher.phase(), Phase::Closed);
        assert!(router.is_idle());
    }
}

#[test]
fn any_frame_on_a_subscribed_stream_closes_it() {
    for frame in [
        Frame::Ack,
        Frame::Message { body: b"x".to_vec() },
        Frame::RegisterSubscriber { topic: b"/t".to_vec(), keep_alive_ms: 0 },
    ] {
        let mut router = Router::new();
        let mut subscriber = open(&mut router, 3, Role::Subscriber, "/t");
        assert_eq!(subscriber.on_frame(&mut router, frame), Action::Refuse(violation()));
        assert_eq!(subscriber.phase(), Phase::Closed);
        assert!(router.is_idle());
    }
}

#[test]
fn closed_session_does_nothing() {
    let mut router = Router::new();
    let mut publisher = open(&mut router, 0, Role::Publisher, "/t");
    open(&mut router, 1, Role::Subscriber, "/t");
    publisher.on_end(&mut router);
    assert_eq!(publisher.phase(), Phase::Closed);
    assert_eq!(router.publisher_count("/t"), 0);
    for frame in [
        Frame::Message { body: b"late".to_vec() },
        Frame::RegisterPublisher { topic: b"/t".to_vec(), keep_alive_ms: 0 },
        Frame::Ack,
    ] {
        assert_eq!(publisher.on_frame(&mut router, frame), Action::Nothing);
    }
    assert_eq!(router.publisher_count("/t"), 0);
    assert_eq!(router.subscribers("/t"), vec![1]);
    publisher.on_end(&mut router);
    assert_eq!(router.subscribers("/t"), vec![1]);
}

#[test]
fn end_of_stream_detaches_what_was_attached() {
    let mut router = Router::new();
    let mut first = open(&mut router, 0, Role::Publisher, "/t");
    let mut second = open(&mut router, 4, Role::Publisher, "/t");
    let mut subscriber = open(&mut router, 8, Role::Subscriber, "/t");
    assert_eq!(router.publisher_count("/t"), 2);
    first.on_end(&mut router);
    assert_eq!(router.publisher_count("/t"), 1);
    second.on_end(&mut router);
    assert_eq!(router.publisher_count("/t"), 0);
    assert!(router.has_hub("/t"));
    subscriber.on_end(&mut router);
    assert_eq!(subscriber.phase(), Phase::Closed);
    assert!(router.is_idle());
}

#[test]
fn end_of_an_opening_stream_touches_nothing() {
    let mut router = Router::new();
    open(&mut router, 1, Role::Subscriber, "/t");
    let mut opening = Session::new(2);
    opening.on_end(&mut router);
    assert_eq!(opening.phase(), Phase::Closed);
    assert_eq!(router.subscribers("/t"), vec![1]);
    assert_eq!(opening.on_frame(&mut router, Frame::Ack), Action::Nothing);
}
