//! The client's endpoints: a publisher is a sink of values, a subscriber a
//! source of values, each bound to one stream and one payload codec.
//!
//! An endpoint holds no transport. The caller sends the frames it is given
//! and hands in the frames that arrive.

use vstd::prelude::*;
use crate::codec::{MessageDecoder, MessageEncoder};
use crate::error::ErrorKind;
use crate::frame::{Frame, FrameView};
use crate::handshake::{read_reply, register, register_spec, Reply, Role};

verus! {

/// The options with which a stream is opened. `map`, `filter` and `retain`
/// are kept for later use: they are taken and have no effect on what is
/// sent.
#[derive(Clone, Debug)]
pub struct StreamConfig {
    topic: String,
    keep_alive_ms: Option<u32>,
    map: Option<String>,
    filter: Option<String>,
    retain_ms: Option<u64>,
}

/// The options as mathematical values.
pub struct StreamConfigView {
    pub topic: Seq<char>,
    pub keep_alive_ms: Option<u32>,
    pub map: Option<Seq<char>>,
    pub filter: Option<Seq<char>>,
    pub retain_ms: Option<u64>,
}

/// The text of an optional string.
pub open spec fn text_view(text: Option<String>) -> Option<Seq<char>> {
    match text {
        Some(s) => Some(s@),
        None => None,
    }
}

impl View for StreamConfig {
    type V = StreamConfigView;

    closed spec fn view(&self) -> StreamConfigView {
        StreamConfigView {
            topic: self.topic@,
            keep_alive_ms: self.keep_alive_ms,
            map: text_view(self.map),
            filter: text_view(self.filter),
            retain_ms: self.retain_ms,
        }
    }
}

impl StreamConfig {
    /// Options for a stream on a topic, with nothing else set. The topic
    /// path is tested when the stream is opened.
    pub fn new(topic: &str) -> (config: StreamConfig)
        ensures
            config@ == (StreamConfigView {
                topic: topic@,
                keep_alive_ms: None,
                map: None,
                filter: None,
                retain_ms: None,
            }),
    {
        StreamConfig {
            topic: topic.to_owned(),
            keep_alive_ms: None,
            map: None,
            filter: None,
            retain_ms: None,
        }
    }

    /// Asks for transport-level pings at this interval, in milliseconds.
    pub fn keep_alive(self, interval_ms: u32) -> (config: StreamConfig)
        ensures
            config@ == (StreamConfigView { keep_alive_ms: Some(interval_ms), ..self@ }),
    {
        StreamConfig {
            topic: self.topic,
            keep_alive_ms: Some(interval_ms),
            map: self.map,
            filter: self.filter,
            retain_ms: self.retain_ms,
        }
    }

    /// Names a transformation of the stream's messages. Kept, not used.
    pub fn map(self, module: &str) -> (config: StreamConfig)
        ensures
            config@ == (StreamConfigView { map: Some(module@), ..self@ }),
    {
        StreamConfig {
            topic: self.topic,
            keep_alive_ms: self.keep_alive_ms,
            map: Some(module.to_owned()),
            filter: self.filter,
            retain_ms: self.retain_ms,
        }
    }

    /// Names a filter on the stream's messages. Kept, not used.
    pub fn filter(self, module: &str) -> (config: StreamConfig)
        ensures
            config@ == (StreamConfigView { filter: Some(module@), ..self@ }),
    {
        StreamConfig {
            topic: self.topic,
            keep_alive_ms: self.keep_alive_ms,
            map: self.map,
            filter: Some(module.to_owned()),
            retain_ms: self.retain_ms,
        }
    }

    /// Asks that messages be retained for this long, in milliseconds. Kept,
    /// not used.
    pub fn retain(self, period_ms: u64) -> (config: StreamConfig)
        ensures
            config@ == (StreamConfigView { retain_ms: Some(period_ms), ..self@ }),
    {
        StreamConfig {
            topic: self.topic,
            keep_alive_ms: self.keep_alive_ms,
            map: self.map,
            filter: self.filter,
            retain_ms: Some(period_ms),
        }
    }

    /// The topic path.
    pub fn topic(&self) -> (topic: &str)
        ensures
            topic@ == self@.topic,
    {
        self.topic.as_str()
    }

    /// The keep-alive interval, if one was asked for.
    pub fn keep_alive_ms(&self) -> (interval_ms: Option<u32>)
        ensures
            interval_ms == self@.keep_alive_ms,
    {
        self.keep_alive_ms
    }

    /// The frame that opens a stream with these options in a role:
    /// `InvalidTopic` for a topic path that breaks the rules,
    /// `FrameTooLarge` for one that no frame can carry. The frame says the
    /// role, the topic and the keep-alive, and nothing of the options kept
    /// for later use.
    pub fn open_frame(&self, role: Role) -> (r: Result<Frame, ErrorKind>)
        ensures
            match register_spec(role, self@.topic, self@.keep_alive_ms) {
                Ok(frame) => r is Ok && r->Ok_0@ == frame,
                Err(kind) => r is Err && r->Err_0 == kind,
            },
    {
        register(role, self.topic.as_str(), self.keep_alive_ms)
    }
}

/// Where a client's stream stands.
#[derive(Clone, Copy, Debug, PartialEq, Eq, Structural)]
pub enum StreamPhase {
    /// The register frame is sent or about to be; the answer is awaited.
    Handshaking,
    /// The server has answered `Ack`.
    Open,
    /// The client has finished the stream.
    Finished,
    /// The server has refused or closed the stream, or the transport is
    /// gone.
    Closed,
}

/// The phase after the server's frame. `Ack` opens a stream that awaits
/// it; any other frame, and any frame at another time, closes the stream.
pub open spec fn phase_after_reply(phase: StreamPhase, reply: FrameView) -> StreamPhase {
    if phase == StreamPhase::Handshaking && reply is Ack {
        StreamPhase::Open
    } else {
        StreamPhase::Closed
    }
}

/// Takes the server's frame in a phase.
fn take_reply(phase: StreamPhase, reply: Frame) -> (r: (StreamPhase, Reply))
    ensures
        r.0 == phase_after_reply(phase, reply@),
        match reply@ {
            FrameView::Ack => r.1 is Accepted,
            FrameView::Error { reason } => r.1 is Refused && r.1->Refused_0@ == reason,
            _ => r.1 is Unexpected,
        },
{
    let answer = read_reply(reply);
    let next = match (phase, &answer) {
        (StreamPhase::Handshaking, Reply::Accepted) => StreamPhase::Open,
        _ => StreamPhase::Closed,
    };
    (next, answer)
}

/// A sink of values of one stream: each value is encoded and sent as one
/// message.
pub struct Publisher<E> {
    encoder: E,
    phase: StreamPhase,
}

impl<E> Publisher<E> {
    /// The payload encoder.
    pub closed spec fn encoder(&self) -> E {
        self.encoder
    }

    /// Where the stream stands.
    pub closed spec fn phase(&self) -> StreamPhase {
        self.phase
    }

    /// A publisher whose stream awaits the server's answer.
    pub fn new(encoder: E) -> (publisher: Publisher<E>)
        ensures
            publisher.phase() == StreamPhase::Handshaking,
            publisher.encoder() == encoder,
    {
        Publisher { encoder, phase: StreamPhase::Handshaking }
    }

    /// Where the stream stands.
    pub fn stream_phase(&self) -> (phase: StreamPhase)
        ensures
            phase == self.phase(),
    {
        self.phase
    }

    /// Takes a frame that the server sent on the stream: the answer to the
    /// register frame, or later an error before the server closes.
    pub fn on_reply(&mut self, reply: Frame) -> (r: Reply)
        ensures
            final(self).phase() == phase_after_reply(old(self).phase(), reply@),
            final(self).encoder() == old(self).encoder(),
            match reply@ {
                FrameView::Ack => r is Accepted,
                FrameView::Error { reason } => r is Refused && r->Refused_0@ == reason,
                _ => r is Unexpected,
            },
    {
        let (next, answer) = take_reply(self.phase, reply);
        self.phase = next;
        answer
    }

    /// The frame that carries `item`: on an open stream the message whose
    /// body the encoder gives, or the encoder's error; on any other stream
    /// `TransportClosed`, and the encoder is not asked.
    pub fn send<Item>(&self, item: Item) -> (r: Result<Frame, ErrorKind>) where
        E: MessageEncoder<Item>,

        ensures
            self.phase() != StreamPhase::Open ==> r == Err::<Frame, ErrorKind>(
                ErrorKind::TransportClosed,
            ),
            self.phase() == StreamPhase::Open ==> match r {
                Ok(Frame::Message { body }) => call_ensures(
                    E::encode,
                    (&self.encoder(), item),
                    Ok::<Vec<u8>, ErrorKind>(body),
                ),
                Ok(_) => false,
                Err(kind) => call_ensures(
                    E::encode,
                    (&self.encoder(), item),
                    Err::<Vec<u8>, ErrorKind>(kind),
                ),
            },
    {
        match self.phase {
            StreamPhase::Open => message_of(self.encoder.encode(item)),
            _ => Err(ErrorKind::TransportClosed),
        }
    }

    /// Finishes the stream, and says whether there was an open stream to
    /// finish. After this every `send` fails.
    pub fn finish(&mut self) -> (finished: bool)
        ensures
            finished == (old(self).phase() == StreamPhase::Open),
            final(self).phase() == if finished {
                StreamPhase::Finished
            } else {
                old(self).phase()
            },
            final(self).encoder() == old(self).encoder(),
    {
        match self.phase {
            StreamPhase::Open => {
                self.phase = StreamPhase::Finished;
                true
            },
            _ => false,
        }
    }
}

/// What arrives on a subscriber's stream.
#[derive(Clone, Debug, PartialEq, Eq)]
pub enum Incoming {
    /// A frame.
    Frame(Frame),
    /// The end of the stream.
    End,
    /// A failure of the transport.
    Lost,
}

/// What arrives, as a mathematical value.
pub enum IncomingView {
    Frame(FrameView),
    End,
    Lost,
}

impl View for Incoming {
    type V = IncomingView;

    open spec fn view(&self) -> IncomingView {
        match *self {
            Incoming::Frame(frame) => IncomingView::Frame(frame@),
            Incoming::End => IncomingView::End,
            Incoming::Lost => IncomingView::Lost,
        }
    }
}

/// What a subscriber yields.
#[derive(Clone, Debug, PartialEq, Eq)]
pub enum Received<Item> {
    /// A value.
    Item(Item),
    /// An error. After a decoding error the subscription goes on.
    Failed(ErrorKind),
    /// The server closed the subscription, for this reason.
    Closed(Vec<u8>),
    /// The end: nothing more will come.
    Ended,
}

/// The phase of a subscriber's stream after something arrived on it. A
/// message leaves an open stream open, whether or not it can be decoded;
/// anything else closes it.
pub open spec fn phase_after_incoming(phase: StreamPhase, incoming: IncomingView) -> StreamPhase {
    if phase != StreamPhase::Open {
        phase
    } else {
        match incoming {
            IncomingView::Frame(FrameView::Message { .. }) => StreamPhase::Open,
            _ => StreamPhase::Closed,
        }
    }
}

/// A source of values of one stream: the body of each message is decoded
/// to one value.
pub struct Subscriber<D> {
    decoder: D,
    phase: StreamPhase,
}

impl<D> Subscriber<D> {
    /// The payload decoder.
    pub closed spec fn decoder(&self) -> D {
        self.decoder
    }

    /// Where the stream stands.
    pub closed spec fn phase(&self) -> StreamPhase {
        self.phase
    }

    /// A subscriber whose stream awaits the server's answer.
    pub fn new(decoder: D) -> (subscriber: Subscriber<D>)
        ensures
            subscriber.phase() == StreamPhase::Handshaking,
            subscriber.decoder() == decoder,
    {
        Subscriber { decoder, phase: StreamPhase::Handshaking }
    }

    /// Where the stream stands.
    pub fn stream_phase(&self) -> (phase: StreamPhase)
        ensures
            phase == self.phase(),
    {
        self.phase
    }

    /// Takes the server's answer to the register frame.
    pub fn on_reply(&mut self, reply: Frame) -> (r: Reply)
        ensures
            final(self).phase() == phase_after_reply(old(self).phase(), reply@),
            final(self).decoder() == old(self).decoder(),
            match reply@ {
                FrameView::Ack => r is Accepted,
                FrameView::Error { reason } => r is Refused && r->Refused_0@ == reason,
                _ => r is Unexpected,
            },
    {
        let (next, answer) = take_reply(self.phase, reply);
        self.phase = next;
        answer
    }

    /// Takes what arrived on the stream and yields a value, an error or the
    /// end. On an open stream a message yields what the decoder makes of
    /// its body, a value or an error, and the stream stays open; an error
    /// frame yields its reason, the end of the stream yields the end, a
    /// transport failure yields `TransportClosed`, any other frame yields
    /// `Malformed`, and each of these closes the stream. On a stream that
    /// is not open everything yields the end.
    pub fn next<Item>(&mut self, incoming: Incoming) -> (r: Received<Item>) where
        D: MessageDecoder<Item>,

        ensures
            final(self).phase() == phase_after_incoming(old(self).phase(), incoming@),
            final(self).decoder() == old(self).decoder(),
            old(self).phase() != StreamPhase::Open ==> r is Ended,
            old(self).phase() == StreamPhase::Open ==> match incoming@ {
                IncomingView::Frame(FrameView::Message { body }) => exists|buffer: &[u8]|
                    #[trigger] buffer@ == body && match r {
                        Received::Item(item) => call_ensures(
                            D::decode,
                            (&old(self).decoder(), buffer),
                            Ok::<Item, ErrorKind>(item),
                        ),
                        Received::Failed(kind) => call_ensures(
                            D::decode,
                            (&old(self).decoder(), buffer),
                            Err::<Item, ErrorKind>(kind),
                        ),
                        _ => false,
                    },
                IncomingView::Frame(FrameView::Error { reason }) => r is Closed && r->Closed_0@
                    == reason,
                IncomingView::Frame(_) => r == Received::<Item>::Failed(ErrorKind::Malformed),
                IncomingView::End => r is Ended,
                IncomingView::Lost => r == Received::<Item>::Failed(ErrorKind::TransportClosed),
            },
    {
        match self.phase {
            StreamPhase::Open => match incoming {
                Incoming::Frame(Frame::Message { body }) => received_of(
                    self.decoder.decode(body.as_slice()),
                ),
                Incoming::Frame(Frame::Error { reason }) => {
                    self.phase = StreamPhase::Closed;
                    Received::Closed(reason)
                },
                Incoming::Frame(_) => {
                    self.phase = StreamPhase::Closed;
                    Received::Failed(ErrorKind::Malformed)
                },
                Incoming::End => {
                    self.phase = StreamPhase::Closed;
                    Received::Ended
                },
                Incoming::Lost => {
                    self.phase = StreamPhase::Closed;
                    Received::Failed(ErrorKind::TransportClosed)
                },
            },
            _ => Received::Ended,
        }
    }
}

/// What a publisher sends for what its encoder gave: the message with the
/// encoded bytes as its body, or the encoder's error.
pub fn message_of(encoded: Result<Vec<u8>, ErrorKind>) -> (r: Result<Frame, ErrorKind>)
    ensures
        match encoded {
            Ok(body) => r == Ok::<Frame, ErrorKind>(Frame::Message { body }),
            Err(kind) => r == Err::<Frame, ErrorKind>(kind),
        },
{
    match encoded {
        Ok(body) => Ok(Frame::Message { body }),
        Err(kind) => Err(kind),
    }
}

/// What a subscriber yields for what its decoder gave: the value, or the
/// decoder's error.
pub fn received_of<Item>(decoded: Result<Item, ErrorKind>) -> (r: Received<Item>)
    ensures
        match decoded {
            Ok(item) => r == Received::Item(item),
            Err(kind) => r == Received::<Item>::Failed(kind),
        },
{
    match decoded {
        Ok(item) => Received::Item(item),
        Err(kind) => Received::Failed(kind),
    }
}

} // verus!
