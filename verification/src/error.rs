//! Error kinds of the message plane.

use vstd::prelude::*;
use vstd::utf8::encode_utf8;
use crate::wire::bytes_equal;

verus! {

/// What went wrong, by kind. Each kind gives up the smallest resource that
/// encloses the fault; `BadEncoding` gives up none.
#[derive(Clone, Copy, Debug, PartialEq, Eq, Structural, Hash)]
pub enum ErrorKind {
    /// A frame on the wire breaks the framing rules.
    Malformed,
    /// A frame is larger than the configured maximum.
    FrameTooLarge,
    /// A topic path is empty, does not start with `/`, or holds a NUL byte.
    InvalidTopic,
    /// A payload could not be decoded by the payload codec.
    BadEncoding,
    /// A subscriber could not take a frame within the send timeout.
    SlowSubscriber,
    /// The transport under a stream has gone away.
    TransportClosed,
    /// The opening frame of a stream did not arrive in time.
    HandshakeTimeout,
}

/// What is given up when an error arises.
#[derive(Clone, Copy, Debug, PartialEq, Eq, Structural, Hash)]
pub enum Recovery {
    /// The connection is dropped, and with it every stream on it.
    DropConnection,
    /// An error frame is sent in reply, and the stream is closed.
    RefuseStream,
    /// The stream is closed without a reply.
    CloseStream,
    /// The subscriber in question is detached and its stream closed; no
    /// other stream is touched.
    DetachSubscriber,
    /// Nothing is closed: the caller is told, and the stream stays open.
    TellCaller,
}

impl ErrorKind {
    /// What is given up when an error of this kind arises.
    pub open spec fn spec_recovery(self) -> Recovery {
        match self {
            ErrorKind::Malformed => Recovery::DropConnection,
            ErrorKind::FrameTooLarge => Recovery::DropConnection,
            ErrorKind::InvalidTopic => Recovery::RefuseStream,
            ErrorKind::BadEncoding => Recovery::TellCaller,
            ErrorKind::SlowSubscriber => Recovery::DetachSubscriber,
            ErrorKind::TransportClosed => Recovery::DropConnection,
            ErrorKind::HandshakeTimeout => Recovery::CloseStream,
        }
    }

    /// What is given up when an error of this kind arises.
    #[verifier::when_used_as_spec(spec_recovery)]
    pub fn recovery(self) -> (r: Recovery)
        ensures
            r == self.spec_recovery(),
    {
        match self {
            ErrorKind::Malformed => Recovery::DropConnection,
            ErrorKind::FrameTooLarge => Recovery::DropConnection,
            ErrorKind::InvalidTopic => Recovery::RefuseStream,
            ErrorKind::BadEncoding => Recovery::TellCaller,
            ErrorKind::SlowSubscriber => Recovery::DetachSubscriber,
            ErrorKind::TransportClosed => Recovery::DropConnection,
            ErrorKind::HandshakeTimeout => Recovery::CloseStream,
        }
    }

    /// Whether the stream on which the error arose stays open: true for
    /// `BadEncoding` alone.
    pub fn is_recoverable(self) -> (r: bool)
        ensures
            r == (self.spec_recovery() == Recovery::TellCaller),
            r == (self == ErrorKind::BadEncoding),
    {
        match self {
            ErrorKind::BadEncoding => true,
            _ => false,
        }
    }

    /// The text that names the kind: the reason that an error frame
    /// of this kind carries.
    pub open spec fn text(self) -> Seq<char> {
        match self {
            ErrorKind::Malformed => "malformed frame"@,
            ErrorKind::FrameTooLarge => "frame too large"@,
            ErrorKind::InvalidTopic => "invalid topic"@,
            ErrorKind::BadEncoding => "bad encoding"@,
            ErrorKind::SlowSubscriber => "slow subscriber"@,
            ErrorKind::TransportClosed => "transport closed"@,
            ErrorKind::HandshakeTimeout => "handshake"@,
        }
    }

    /// The text that names the kind: the reason that an error frame of
    /// this kind carries.
    pub fn describe(self) -> (text: &'static str)
        ensures
            text@ == self.text(),
    {
        match self {
            ErrorKind::Malformed => "malformed frame",
            ErrorKind::FrameTooLarge => "frame too large",
            ErrorKind::InvalidTopic => "invalid topic",
            ErrorKind::BadEncoding => "bad encoding",
            ErrorKind::SlowSubscriber => "slow subscriber",
            ErrorKind::TransportClosed => "transport closed",
            ErrorKind::HandshakeTimeout => "handshake",
        }
    }

    /// The kind that a reason names, if it names one.
    pub fn from_reason(reason: &[u8]) -> (kind: Option<ErrorKind>)
        ensures
            kind == reason_kind(reason@),
    {
        if bytes_equal(reason, ErrorKind::InvalidTopic.describe().as_bytes()) {
            Some(ErrorKind::InvalidTopic)
        } else if bytes_equal(reason, ErrorKind::SlowSubscriber.describe().as_bytes()) {
            Some(ErrorKind::SlowSubscriber)
        } else if bytes_equal(reason, ErrorKind::HandshakeTimeout.describe().as_bytes()) {
            Some(ErrorKind::HandshakeTimeout)
        } else if bytes_equal(reason, ErrorKind::Malformed.describe().as_bytes()) {
            Some(ErrorKind::Malformed)
        } else if bytes_equal(reason, ErrorKind::FrameTooLarge.describe().as_bytes()) {
            Some(ErrorKind::FrameTooLarge)
        } else if bytes_equal(reason, ErrorKind::BadEncoding.describe().as_bytes()) {
            Some(ErrorKind::BadEncoding)
        } else if bytes_equal(reason, ErrorKind::TransportClosed.describe().as_bytes()) {
            Some(ErrorKind::TransportClosed)
        } else {
            None
        }
    }
}

/// Whether a reason is the text of a kind, in UTF-8.
pub open spec fn names(reason: Seq<u8>, kind: ErrorKind) -> bool {
    reason == encode_utf8(kind.text())
}

/// The kind that a reason names: the kind whose text the reason is, or
/// `None` for a reason that is the text of no kind.
pub open spec fn reason_kind(reason: Seq<u8>) -> Option<ErrorKind> {
    if names(reason, ErrorKind::InvalidTopic) {
        Some(ErrorKind::InvalidTopic)
    } else if names(reason, ErrorKind::SlowSubscriber) {
        Some(ErrorKind::SlowSubscriber)
    } else if names(reason, ErrorKind::HandshakeTimeout) {
        Some(ErrorKind::HandshakeTimeout)
    } else if names(reason, ErrorKind::Malformed) {
        Some(ErrorKind::Malformed)
    } else if names(reason, ErrorKind::FrameTooLarge) {
        Some(ErrorKind::FrameTooLarge)
    } else if names(reason, ErrorKind::BadEncoding) {
        Some(ErrorKind::BadEncoding)
    } else if names(reason, ErrorKind::TransportClosed) {
        Some(ErrorKind::TransportClosed)
    } else {
        None
    }
}

/// No two kinds have the same text.
pub proof fn lemma_texts_differ(a: ErrorKind, b: ErrorKind)
    requires
        a != b,
    ensures
        a.text() != b.text(),
        encode_utf8(a.text()) != encode_utf8(b.text()),
{
    reveal_strlit("malformed frame");
    reveal_strlit("frame too large");
    reveal_strlit("invalid topic");
    reveal_strlit("bad encoding");
    reveal_strlit("slow subscriber");
    reveal_strlit("transport closed");
    reveal_strlit("handshake");
    vstd::utf8::encode_utf8_decode_utf8(a.text());
    vstd::utf8::encode_utf8_decode_utf8(b.text());
}

/// A kind is found again from its text: the reason that an error frame of
/// a kind carries names that kind and no other.
pub proof fn lemma_reason_round_trip(kind: ErrorKind)
    ensures
        reason_kind(encode_utf8(kind.text())) == Some(kind),
{
    if kind != ErrorKind::InvalidTopic {
        lemma_texts_differ(kind, ErrorKind::InvalidTopic);
    }
    if kind != ErrorKind::SlowSubscriber {
        lemma_texts_differ(kind, ErrorKind::SlowSubscriber);
    }
    if kind != ErrorKind::HandshakeTimeout {
        lemma_texts_differ(kind, ErrorKind::HandshakeTimeout);
    }
    if kind != ErrorKind::Malformed {
        lemma_texts_differ(kind, ErrorKind::Malformed);
    }
    if kind != ErrorKind::FrameTooLarge {
        lemma_texts_differ(kind, ErrorKind::FrameTooLarge);
    }
    if kind != ErrorKind::BadEncoding {
        lemma_texts_differ(kind, ErrorKind::BadEncoding);
    }
    if kind != ErrorKind::TransportClosed {
        lemma_texts_differ(kind, ErrorKind::TransportClosed);
    }
}

} // verus!
