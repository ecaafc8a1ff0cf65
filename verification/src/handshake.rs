//! The session handshake: the first frame on a new stream, and its answer.
//!
//! The client opens a stream with one register frame, which names its role
//! and its topic. The server answers `Ack`, or `Error` with a reason, which
//! is fatal. After that no control frame is valid on the stream.

use vstd::prelude::*;
use vstd::utf8::{decode_utf8, encode_utf8, valid_utf8};
use crate::codec::text_of;
use crate::error::ErrorKind;
use crate::frame::{Frame, FrameView, MAX_FIELD_LEN};
use crate::topic::{is_valid_topic, lemma_topic_text_bytes, valid_topic, valid_topic_text};

verus! {

/// What a stream is opened as.
#[derive(Clone, Copy, Debug, PartialEq, Eq, Structural)]
pub enum Role {
    /// The client sends messages on the topic.
    Publisher,
    /// The client receives the messages of the topic.
    Subscriber,
}

/// What a register frame asks for.
#[derive(Clone, Debug, PartialEq, Eq)]
pub struct Registration {
    pub role: Role,
    pub topic: String,
    /// The keep-alive hint in milliseconds; 0 means none.
    pub keep_alive_ms: u32,
}

/// A registration as a mathematical value.
pub struct RegistrationView {
    pub role: Role,
    pub topic: Seq<char>,
    pub keep_alive_ms: u32,
}

impl View for Registration {
    type V = RegistrationView;

    open spec fn view(&self) -> RegistrationView {
        RegistrationView {
            role: self.role,
            topic: self.topic@,
            keep_alive_ms: self.keep_alive_ms,
        }
    }
}

impl Registration {
    /// The keep-alive hint, if there is one.
    pub fn keep_alive(&self) -> (hint: Option<u32>)
        ensures
            hint == if self.keep_alive_ms == 0 {
                None::<u32>
            } else {
                Some(self.keep_alive_ms)
            },
    {
        if self.keep_alive_ms == 0 {
            None
        } else {
            Some(self.keep_alive_ms)
        }
    }
}

/// The register frame of a role.
pub open spec fn register_frame(role: Role, topic: Seq<u8>, keep_alive_ms: u32) -> FrameView {
    match role {
        Role::Publisher => FrameView::RegisterPublisher { topic, keep_alive_ms },
        Role::Subscriber => FrameView::RegisterSubscriber { topic, keep_alive_ms },
    }
}

/// The keep-alive as it is written: the hint, or 0 for none.
pub open spec fn keep_alive_field(keep_alive_ms: Option<u32>) -> u32 {
    match keep_alive_ms {
        Some(ms) => ms,
        None => 0,
    }
}

/// The frame with which a client opens a stream: `InvalidTopic` for a topic
/// path that breaks the rules, `FrameTooLarge` for one that no frame can
/// carry, else the register frame of the role.
pub open spec fn register_spec(role: Role, topic: Seq<char>, keep_alive_ms: Option<u32>) -> Result<
    FrameView,
    ErrorKind,
> {
    if !valid_topic_text(topic) {
        Err(ErrorKind::InvalidTopic)
    } else if encode_utf8(topic).len() > MAX_FIELD_LEN {
        Err(ErrorKind::FrameTooLarge)
    } else {
        Ok(register_frame(role, encode_utf8(topic), keep_alive_field(keep_alive_ms)))
    }
}

/// What the server makes of the first frame of a stream: the registration
/// that a register frame with a valid topic path asks for, `InvalidTopic`
/// for a register frame with any other topic, `Malformed` for any other
/// frame.
pub open spec fn registration_spec(first: FrameView) -> Result<RegistrationView, ErrorKind> {
    match first {
        FrameView::RegisterPublisher { topic, keep_alive_ms } => registration_for(
            Role::Publisher,
            topic,
            keep_alive_ms,
        ),
        FrameView::RegisterSubscriber { topic, keep_alive_ms } => registration_for(
            Role::Subscriber,
            topic,
            keep_alive_ms,
        ),
        _ => Err(ErrorKind::Malformed),
    }
}

/// The registration for a topic given as bytes: they must be the UTF-8 form
/// of a valid topic path.
pub open spec fn registration_for(role: Role, topic: Seq<u8>, keep_alive_ms: u32) -> Result<
    RegistrationView,
    ErrorKind,
> {
    if valid_utf8(topic) && valid_topic(topic) {
        Ok(RegistrationView { role, topic: decode_utf8(topic), keep_alive_ms })
    } else {
        Err(ErrorKind::InvalidTopic)
    }
}

/// The reason with which the server refuses a stream: `invalid topic` for
/// an invalid topic, `handshake` for every other failure before the
/// handshake is complete.
pub open spec fn refusal_reason(kind: ErrorKind) -> Seq<char> {
    if kind == ErrorKind::InvalidTopic {
        ErrorKind::InvalidTopic.text()
    } else {
        ErrorKind::HandshakeTimeout.text()
    }
}

/// The frame with which a client opens a stream.
pub fn register(role: Role, topic: &str, keep_alive_ms: Option<u32>) -> (r: Result<
    Frame,
    ErrorKind,
>)
    ensures
        match register_spec(role, topic@, keep_alive_ms) {
            Ok(frame) => r is Ok && r->Ok_0@ == frame,
            Err(kind) => r is Err && r->Err_0 == kind,
        },
{
    proof {
        lemma_topic_text_bytes(topic@);
    }
    let bytes = topic.as_bytes();
    if !is_valid_topic(bytes) {
        return Err(ErrorKind::InvalidTopic);
    }
    if bytes.len() > MAX_FIELD_LEN {
        return Err(ErrorKind::FrameTooLarge);
    }
    let keep_alive_ms: u32 = match keep_alive_ms {
        Some(ms) => ms,
        None => 0,
    };
    let topic = vstd::slice::slice_to_vec(bytes);
    Ok(
        match role {
            Role::Publisher => Frame::RegisterPublisher { topic, keep_alive_ms },
            Role::Subscriber => Frame::RegisterSubscriber { topic, keep_alive_ms },
        },
    )
}

/// Reads a topic path off the wire.
fn registration_from(role: Role, topic: &Vec<u8>, keep_alive_ms: u32) -> (r: Result<
    Registration,
    ErrorKind,
>)
    ensures
        match registration_for(role, topic@, keep_alive_ms) {
            Ok(registration) => r is Ok && r->Ok_0@ == registration,
            Err(kind) => r is Err && r->Err_0 == kind,
        },
{
    if !is_valid_topic(topic.as_slice()) {
        return Err(ErrorKind::InvalidTopic);
    }
    match text_of(topic.as_slice()) {
        Some(text) => Ok(Registration { role, topic: text, keep_alive_ms }),
        None => Err(ErrorKind::InvalidTopic),
    }
}

/// What the server makes of the first frame of a stream.
pub fn accept_registration(first: &Frame) -> (r: Result<Registration, ErrorKind>)
    ensures
        match registration_spec(first@) {
            Ok(registration) => r is Ok && r->Ok_0@ == registration,
            Err(kind) => r is Err && r->Err_0 == kind,
        },
{
    match first {
        Frame::RegisterPublisher { topic, keep_alive_ms } => registration_from(
            Role::Publisher,
            topic,
            *keep_alive_ms,
        ),
        Frame::RegisterSubscriber { topic, keep_alive_ms } => registration_from(
            Role::Subscriber,
            topic,
            *keep_alive_ms,
        ),
        _ => Err(ErrorKind::Malformed),
    }
}

/// The frame with which the server refuses a stream before closing it.
pub fn refusal(kind: ErrorKind) -> (frame: Frame)
    ensures
        frame@ == (FrameView::Error { reason: encode_utf8(refusal_reason(kind)) }),
{
    match kind {
        ErrorKind::InvalidTopic => Frame::error(ErrorKind::InvalidTopic.describe()),
        _ => Frame::error(ErrorKind::HandshakeTimeout.describe()),
    }
}

/// The server's answer to a register frame, as the client reads it.
#[derive(Clone, Debug, PartialEq, Eq)]
pub enum Reply {
    /// `Ack`: the stream is open.
    Accepted,
    /// `Error`: the stream is refused, for this reason.
    Refused(Vec<u8>),
    /// Any other frame: the server broke the protocol.
    Unexpected,
}

/// Reads the server's answer to a register frame.
pub fn read_reply(reply: Frame) -> (r: Reply)
    ensures
        match reply@ {
            FrameView::Ack => r is Accepted,
            FrameView::Error { reason } => r is Refused && r->Refused_0@ == reason,
            _ => r is Unexpected,
        },
{
    match reply {
        Frame::Ack => Reply::Accepted,
        Frame::Error { reason } => Reply::Refused(reason),
        _ => Reply::Unexpected,
    }
}

/// Client and server agree: a register frame that the client builds for a
/// role, a topic path and a keep-alive is accepted by the server as that
/// role on that topic with that keep-alive; and the client refuses to build
/// one for a topic path that the server would refuse.
pub proof fn lemma_register_accepted(role: Role, topic: Seq<char>, keep_alive_ms: Option<u32>)
    ensures
        register_spec(role, topic, keep_alive_ms) is Ok ==> registration_spec(
            register_spec(role, topic, keep_alive_ms)->Ok_0,
        ) == Ok::<RegistrationView, ErrorKind>(
            RegistrationView { role, topic, keep_alive_ms: keep_alive_field(keep_alive_ms) },
        ),
        !valid_topic_text(topic) ==> register_spec(role, topic, keep_alive_ms) == Err::<
            FrameView,
            ErrorKind,
        >(ErrorKind::InvalidTopic) && registration_for(
            role,
            encode_utf8(topic),
            keep_alive_field(keep_alive_ms),
        ) == Err::<RegistrationView, ErrorKind>(ErrorKind::InvalidTopic),
{
    lemma_topic_text_bytes(topic);
    vstd::utf8::encode_utf8_valid_utf8(topic);
    vstd::utf8::encode_utf8_decode_utf8(topic);
}

} // verus!
