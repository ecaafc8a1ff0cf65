//! The server's side of one stream: from what arrives on it to what is to
//! be done.
//!
//! A session starts when a stream is accepted. Its first frame decides its
//! role; from then on a publisher's stream carries messages to be routed,
//! and a subscriber's stream carries nothing but its end. The session works
//! on the router inside the caller's short critical section and hands back
//! the action that the caller performs outside it.

use vstd::prelude::*;
use vstd::utf8::encode_utf8;
use crate::error::ErrorKind;
use crate::frame::{Frame, FrameView};
use crate::handshake::{accept_registration, refusal, refusal_reason, registration_spec, Role};
use crate::router::{
    attach_publisher_spec, attach_subscriber_spec, detach_publisher_spec, detach_subscriber_spec,
    publishers_of, subscribers_of, Registry, Router,
};

verus! {

/// Where a session stands.
#[derive(Clone, Copy, Debug, PartialEq, Eq, Structural)]
pub enum Phase {
    /// The first frame has not arrived.
    Opening,
    /// The stream is a publisher's: its messages are routed.
    Publishing,
    /// The stream is a subscriber's: it is attached to its topic's hub.
    Subscribed,
    /// The stream is done with.
    Closed,
}

/// What the caller is to do after an event.
#[derive(Clone, Debug, PartialEq, Eq)]
pub enum Action {
    /// Send the frame on this stream.
    Reply(Frame),
    /// Send the frame to each of the subscribers, in this order, each
    /// within the send timeout, and report each outcome to the router.
    Broadcast { subscribers: Vec<u64>, frame: Frame },
    /// Send the frame on this stream, then close the stream.
    Refuse(Frame),
    /// Nothing.
    Nothing,
}

/// An action as a mathematical value.
pub enum ActionView {
    Reply(FrameView),
    Broadcast { subscribers: Seq<u64>, frame: FrameView },
    Refuse(FrameView),
    Nothing,
}

impl View for Action {
    type V = ActionView;

    open spec fn view(&self) -> ActionView {
        match *self {
            Action::Reply(frame) => ActionView::Reply(frame@),
            Action::Broadcast { subscribers, frame } => ActionView::Broadcast {
                subscribers: subscribers@,
                frame: frame@,
            },
            Action::Refuse(frame) => ActionView::Refuse(frame@),
            Action::Nothing => ActionView::Nothing,
        }
    }
}

/// A session as a mathematical value.
pub struct SessionView {
    /// The key under which the stream is attached if it subscribes.
    pub key: u64,
    pub phase: Phase,
    /// The topic, once the first frame has named it.
    pub topic: Seq<char>,
}

/// The frame with which a stream is closed that sent what its role does not
/// allow.
pub open spec fn violation_frame() -> FrameView {
    FrameView::Error { reason: encode_utf8(ErrorKind::Malformed.text()) }
}

/// The session after a frame. A register frame with a valid topic opens
/// the stream in its role; any other first frame closes it. A publisher's
/// stream stays open on a message and closes on any other frame; a
/// subscriber's stream closes on any frame.
pub open spec fn session_after_frame(session: SessionView, frame: FrameView) -> SessionView {
    match session.phase {
        Phase::Opening => match registration_spec(frame) {
            Ok(registration) => SessionView {
                key: session.key,
                phase: match registration.role {
                    Role::Publisher => Phase::Publishing,
                    Role::Subscriber => Phase::Subscribed,
                },
                topic: registration.topic,
            },
            Err(_) => SessionView { phase: Phase::Closed, ..session },
        },
        Phase::Publishing => if frame is Message {
            session
        } else {
            SessionView { phase: Phase::Closed, ..session }
        },
        Phase::Subscribed => SessionView { phase: Phase::Closed, ..session },
        Phase::Closed => session,
    }
}

/// The registry after a frame on a session's stream. A registration
/// attaches; a message changes nothing; a frame that closes an open stream
/// detaches.
pub open spec fn registry_after_frame(session: SessionView, reg: Registry, frame: FrameView)
    -> Registry {
    match session.phase {
        Phase::Opening => match registration_spec(frame) {
            Ok(registration) => match registration.role {
                Role::Publisher => attach_publisher_spec(reg, registration.topic),
                Role::Subscriber => attach_subscriber_spec(reg, registration.topic, session.key),
            },
            Err(_) => reg,
        },
        Phase::Publishing => if frame is Message {
            reg
        } else {
            detach_publisher_spec(reg, session.topic)
        },
        Phase::Subscribed => detach_subscriber_spec(reg, session.topic, session.key),
        Phase::Closed => reg,
    }
}

/// What is to be done after a frame on a session's stream. A registration
/// is answered with `Ack`, a first frame that is none is refused with the
/// reason of its fault. A publisher's message goes to the subscribers that
/// are attached to its topic at that moment. A frame that its stream's
/// role does not allow is refused. On a closed stream nothing is done.
pub open spec fn action_after_frame(session: SessionView, reg: Registry, frame: FrameView)
    -> ActionView {
    match session.phase {
        Phase::Opening => match registration_spec(frame) {
            Ok(_) => ActionView::Reply(FrameView::Ack),
            Err(kind) => ActionView::Refuse(
                FrameView::Error { reason: encode_utf8(refusal_reason(kind)) },
            ),
        },
        Phase::Publishing => if frame is Message {
            ActionView::Broadcast { subscribers: subscribers_of(reg, session.topic), frame }
        } else {
            ActionView::Refuse(violation_frame())
        },
        Phase::Subscribed => ActionView::Refuse(violation_frame()),
        Phase::Closed => ActionView::Nothing,
    }
}

/// Whether the router can count one publisher more where the frame asks
/// for it: the count is a 64-bit number.
pub open spec fn has_room(session: SessionView, reg: Registry, frame: FrameView) -> bool {
    session.phase == Phase::Opening ==> match registration_spec(frame) {
        Ok(registration) => registration.role == Role::Publisher ==> publishers_of(
            reg,
            registration.topic,
        ) < u64::MAX,
        Err(_) => true,
    }
}

/// The registry after a session's stream has ended, for whatever reason:
/// what the session had attached is detached.
pub open spec fn registry_after_end(session: SessionView, reg: Registry) -> Registry {
    match session.phase {
        Phase::Publishing => detach_publisher_spec(reg, session.topic),
        Phase::Subscribed => detach_subscriber_spec(reg, session.topic, session.key),
        _ => reg,
    }
}

/// The server's state for one stream.
pub struct Session {
    key: u64,
    phase: Phase,
    topic: String,
}

impl View for Session {
    type V = SessionView;

    closed spec fn view(&self) -> SessionView {
        SessionView { key: self.key, phase: self.phase, topic: self.topic@ }
    }
}

impl Session {
    /// The session of a stream that has just been accepted. `key` is the
    /// key under which the stream is attached if it subscribes: an
    /// identifier of its sending half that no other stream of the server
    /// shares.
    pub fn new(key: u64) -> (session: Session)
        ensures
            session@ == (SessionView { key, phase: Phase::Opening, topic: Seq::<char>::empty() }),
    {
        Session { key, phase: Phase::Opening, topic: String::new() }
    }

    /// Where the session stands.
    pub fn phase(&self) -> (phase: Phase)
        ensures
            phase == self@.phase,
    {
        self.phase
    }

    /// The key under which the stream is attached if it subscribes.
    pub fn key(&self) -> (key: u64)
        ensures
            key == self@.key,
    {
        self.key
    }

    /// The topic that the first frame named; empty before.
    pub fn topic(&self) -> (topic: &str)
        ensures
            topic@ == self@.topic,
    {
        self.topic.as_str()
    }

    /// Takes a frame that arrived on the stream, works on the router as
    /// the frame asks, and says what is to be done.
    pub fn on_frame(&mut self, router: &mut Router, frame: Frame) -> (action: Action)
        requires
            old(router).wf(),
            has_room(old(self)@, old(router)@, frame@),
        ensures
            final(router).wf(),
            final(self)@ == session_after_frame(old(self)@, frame@),
            final(router)@ == registry_after_frame(old(self)@, old(router)@, frame@),
            action@ == action_after_frame(old(self)@, old(router)@, frame@),
    {
        match self.phase {
            Phase::Opening => match accept_registration(&frame) {
                Ok(registration) => {
                    match registration.role {
                        Role::Publisher => {
                            router.attach_publisher(registration.topic.as_str());
                            self.phase = Phase::Publishing;
                        },
                        Role::Subscriber => {
                            router.attach_subscriber(registration.topic.as_str(), self.key);
                            self.phase = Phase::Subscribed;
                        },
                    }
                    self.topic = registration.topic;
                    Action::Reply(Frame::Ack)
                },
                Err(kind) => {
                    self.phase = Phase::Closed;
                    Action::Refuse(refusal(kind))
                },
            },
            Phase::Publishing => match frame {
                Frame::Message { body } => {
                    let subscribers = router.subscribers(self.topic.as_str());
                    Action::Broadcast { subscribers, frame: Frame::Message { body } }
                },
                _ => {
                    router.detach_publisher(self.topic.as_str());
                    self.phase = Phase::Closed;
                    Action::Refuse(Frame::error(ErrorKind::Malformed.describe()))
                },
            },
            Phase::Subscribed => {
                router.detach_subscriber(self.topic.as_str(), self.key);
                self.phase = Phase::Closed;
                Action::Refuse(Frame::error(ErrorKind::Malformed.describe()))
            },
            Phase::Closed => Action::Nothing,
        }
    }

    /// Takes note that the first frame did not arrive in time. A stream
    /// that is still opening is refused with the reason `handshake`; on any
    /// other nothing is done.
    pub fn on_timeout(&mut self) -> (action: Action)
        ensures
            old(self)@.phase == Phase::Opening ==> final(self)@ == (SessionView {
                phase: Phase::Closed,
                ..old(self)@
            }) && action@ == ActionView::Refuse(
                FrameView::Error {
                    reason: encode_utf8(refusal_reason(ErrorKind::HandshakeTimeout)),
                },
            ),
            old(self)@.phase != Phase::Opening ==> final(self)@ == old(self)@ && action@
                == ActionView::Nothing,
    {
        match self.phase {
            Phase::Opening => {
                self.phase = Phase::Closed;
                Action::Refuse(refusal(ErrorKind::HandshakeTimeout))
            },
            _ => Action::Nothing,
        }
    }

    /// Takes note that the stream has ended: by its peer, by a failure, or
    /// with its connection. What the session had attached is detached, and
    /// the session is closed.
    pub fn on_end(&mut self, router: &mut Router)
        requires
            old(router).wf(),
        ensures
            final(router).wf(),
            final(self)@ == (SessionView { phase: Phase::Closed, ..old(self)@ }),
            final(router)@ == registry_after_end(old(self)@, old(router)@),
    {
        match self.phase {
            Phase::Publishing => {
                router.detach_publisher(self.topic.as_str());
            },
            Phase::Subscribed => {
                router.detach_subscriber(self.topic.as_str(), self.key);
            },
            _ => {},
        }
        self.phase = Phase::Closed;
    }
}

/// A closed session is silent: whatever arrives on its stream afterwards,
/// nothing is routed, nothing is answered, and the registry stays as it is.
pub proof fn lemma_closed_is_silent(session: SessionView, reg: Registry, frame: FrameView)
    requires
        session.phase == Phase::Closed,
    ensures
        action_after_frame(session, reg, frame) == ActionView::Nothing,
        registry_after_frame(session, reg, frame) == reg,
        session_after_frame(session, frame) == session,
{
}

/// Only a publisher's message is routed, and it goes to exactly the
/// subscribers that are attached to its topic at that moment, with its
/// bytes unchanged.
pub proof fn lemma_broadcast_only_of_messages(session: SessionView, reg: Registry, frame: FrameView)
    ensures
        action_after_frame(session, reg, frame) is Broadcast <==> (session.phase
            == Phase::Publishing && frame is Message),
        action_after_frame(session, reg, frame) is Broadcast ==> action_after_frame(
            session,
            reg,
            frame,
        ) == (ActionView::Broadcast { subscribers: subscribers_of(reg, session.topic), frame }),
{
}

} // verus!
