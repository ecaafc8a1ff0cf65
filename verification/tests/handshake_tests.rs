use selium_core::error::ErrorKind;
use selium_core::frame::{Frame, MAX_FIELD_LEN};
use selium_core::handshake::{
    accept_registration, read_reply, refusal, register, Registration, Reply, Role,
};

#[test]
fn register_builds_the_frame_of_the_role() {
    assert_eq!(
        register(Role::Publisher, "/acmeco/stocks", None),
        Ok(Frame::RegisterPublisher { topic: b"/acmeco/stocks".to_vec(), keep_alive_ms: 0 })
    );
    assert_eq!(
        register(Role::Subscriber, "/acmeco/stocks", Some(5_000)),
        Ok(Frame::RegisterSubscriber { topic: b"/acmeco/stocks".to_vec(), keep_alive_ms: 5_000 })
    );
    assert_eq!(
        register(Role::Subscriber, "/caf\u{e9}", Some(0)),
        Ok(Frame::RegisterSubscriber { topic: vec![b'/', b'c', b'a', b'f', 0xc3, 0xa9], keep_alive_ms: 0 })
    );
}

#[test]
fn register_refuses_invalid_topics() {
    assert_eq!(register(Role::Subscriber, "no-slash", None), Err(ErrorKind::InvalidTopic));
    assert_eq!(register(Role::Publisher, "", Some(1)), Err(ErrorKind::InvalidTopic));
    assert_eq!(register(Role::Publisher, "/a\0", None), Err(ErrorKind::InvalidTopic));
}

#[test]
fn register_refuses_a_topic_that_no_frame_can_carry() {
    let longest = format!("/{}", "a".repeat(MAX_FIELD_LEN - 1));
    let too_long = format!("/{}", "a".repeat(MAX_FIELD_LEN));
    assert!(register(Role::Publisher, &longest, None).is_ok());
    assert_eq!(register(Role::Publisher, &too_long, None), Err(ErrorKind::FrameTooLarge));
}

#[test]
fn server_accepts_what_the_client_registers() {
    for (role, topic, hint) in [
        (Role::Publisher, "/t/1", None),
        (Role::Subscriber, "/t/1", Some(250)),
        (Role::Subscriber, "/\u{4e2d}\u{6587}", Some(u32::MAX)),
    ] {
        let frame = register(role, topic, hint).unwrap();
        let registration = accept_registration(&frame).unwrap();
        assert_eq!(
            registration,
            Registration { role, topic: topic.to_owned(), keep_alive_ms: hint.unwrap_or(0) }
        );
        assert_eq!(registration.keep_alive(), hint);
    }
}

#[test]
fn keep_alive_of_zero_means_none() {
    let registration =
        Registration { role: Role::Publisher, topic: "/t".to_owned(), keep_alive_ms: 0 };
    assert_eq!(registration.keep_alive(), None);
    let frame = register(Role::Publisher, "/t", Some(0)).unwrap();
    assert_eq!(accept_registration(&frame).unwrap().keep_alive(), None);
}

#[test]
fn server_refuses_invalid_topics() {
    for topic in [&b"no-slash"[..], b"", b"/a\0b", &[b'/', 0xff], &[0xc3, 0x28]] {
        let frame = Frame::RegisterSubscriber { topic: topic.to_vec(), keep_alive_ms: 0 };
        assert_eq!(accept_registration(&frame), Err(ErrorKind::InvalidTopic));
        let frame = Frame::RegisterPublisher { topic: topic.to_vec(), keep_alive_ms: 0 };
        assert_eq!(accept_registration(&frame), Err(ErrorKind::InvalidTopic));
    }
}

#[test]
fn server_refuses_a_first_frame_that_registers_nothing() {
    assert_eq!(accept_registration(&Frame::Ack), Err(ErrorKind::Malformed));
    assert_eq!(
        accept_registration(&Frame::Message { body: b"/t".to_vec() }),
        Err(ErrorKind::Malformed)
    );
    assert_eq!(
        accept_registration(&Frame::Error { reason: b"/t".to_vec() }),
        Err(ErrorKind::Malformed)
    );
}

#[test]
fn refusal_names_the_fault() {
    assert_eq!(
        refusal(ErrorKind::InvalidTopic),
        Frame::Error { reason: b"invalid topic".to_vec() }
    );
    for kind in [
        ErrorKind::Malformed,
        ErrorKind::FrameTooLarge,
        ErrorKind::HandshakeTimeout,
        ErrorKind::TransportClosed,
        ErrorKind::BadEncoding,
        ErrorKind::SlowSubscriber,
    ] {
        assert_eq!(refusal(kind), Frame::Error { reason: b"handshake".to_vec() });
    }
}

#[test]
fn client_reads_the_reply() {
    assert_eq!(read_reply(Frame::Ack), Reply::Accepted);
    assert_eq!(
        read_reply(Frame::Error { reason: b"invalid topic".to_vec() }),
        Reply::Refused(b"invalid topic".to_vec())
    );
    assert_eq!(read_reply(Frame::Message { body: vec![] }), Reply::Unexpected);
    assert_eq!(
        read_reply(Frame::RegisterPublisher { topic: b"/t".to_vec(), keep_alive_ms: 0 }),
        Reply::Unexpected
    );
    assert_eq!(
        read_reply(Frame::RegisterSubscriber { topic: b"/t".to_vec(), keep_alive_ms: 0 }),
        Reply::Unexpected
    );
}
