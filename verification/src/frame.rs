//! Frames and their layout on the wire.
//!
//! A frame on the wire is a length `N` (unsigned 32-bit, big-endian), a tag
//! (one byte) and a body of `N - 1` bytes whose layout the tag decides.

use vstd::prelude::*;
use crate::error::ErrorKind;
use crate::wire::{be16, be16_value, be32, be32_value, put_u16, put_u32, read_u16, read_u32};

verus! {

/// Tag of a `RegisterPublisher` frame.
pub const TAG_REGISTER_PUBLISHER: u8 = 0;

/// Tag of a `RegisterSubscriber` frame.
pub const TAG_REGISTER_SUBSCRIBER: u8 = 1;

/// Tag of a `Message` frame.
pub const TAG_MESSAGE: u8 = 2;

/// Tag of an `Ack` frame.
pub const TAG_ACK: u8 = 3;

/// Tag of an `Error` frame.
pub const TAG_ERROR: u8 = 4;

/// The largest value of a frame's length field that is accepted unless the
/// codec is configured otherwise: 16 MiB.
pub const DEFAULT_MAX_FRAME_SIZE: u32 = 16777216;

/// The longest topic path or error reason that a frame can carry; its length
/// is written in two bytes.
pub const MAX_FIELD_LEN: usize = 65535;

/// Bytes that precede the body: four of length and one of tag.
pub const HEADER_LEN: usize = 5;

/// The unit of transfer. Topic paths and error reasons are carried as the
/// bytes that stand on the wire; a keep-alive of 0 milliseconds means none.
#[derive(Clone, Debug, PartialEq, Eq)]
pub enum Frame {
    /// Opens a stream as a publisher on a topic.
    RegisterPublisher { topic: Vec<u8>, keep_alive_ms: u32 },
    /// Opens a stream as a subscriber on a topic.
    RegisterSubscriber { topic: Vec<u8>, keep_alive_ms: u32 },
    /// An opaque payload.
    Message { body: Vec<u8> },
    /// The handshake succeeded.
    Ack,
    /// A fatal condition, with its reason as UTF-8 text.
    Error { reason: Vec<u8> },
}

/// A frame as a mathematical value.
pub enum FrameView {
    RegisterPublisher { topic: Seq<u8>, keep_alive_ms: u32 },
    RegisterSubscriber { topic: Seq<u8>, keep_alive_ms: u32 },
    Message { body: Seq<u8> },
    Ack,
    Error { reason: Seq<u8> },
}

impl View for Frame {
    type V = FrameView;

    open spec fn view(&self) -> FrameView {
        match *self {
            Frame::RegisterPublisher { topic, keep_alive_ms } => FrameView::RegisterPublisher {
                topic: topic@,
                keep_alive_ms,
            },
            Frame::RegisterSubscriber { topic, keep_alive_ms } => FrameView::RegisterSubscriber {
                topic: topic@,
                keep_alive_ms,
            },
            Frame::Message { body } => FrameView::Message { body: body@ },
            Frame::Ack => FrameView::Ack,
            Frame::Error { reason } => FrameView::Error { reason: reason@ },
        }
    }
}

/// Body of a register frame: the topic's length in two bytes, the topic, the
/// keep-alive in four bytes.
pub open spec fn register_body(topic: Seq<u8>, keep_alive_ms: u32) -> Seq<u8> {
    be16(topic.len() as u16) + topic + be32(keep_alive_ms)
}

/// Body of an error frame: the reason's length in two bytes, the reason.
pub open spec fn error_body(reason: Seq<u8>) -> Seq<u8> {
    be16(reason.len() as u16) + reason
}

impl FrameView {
    /// The byte that tells the variants apart on the wire.
    pub open spec fn tag(self) -> u8 {
        match self {
            FrameView::RegisterPublisher { .. } => TAG_REGISTER_PUBLISHER,
            FrameView::RegisterSubscriber { .. } => TAG_REGISTER_SUBSCRIBER,
            FrameView::Message { .. } => TAG_MESSAGE,
            FrameView::Ack => TAG_ACK,
            FrameView::Error { .. } => TAG_ERROR,
        }
    }

    /// The bytes that follow the tag.
    pub open spec fn body(self) -> Seq<u8> {
        match self {
            FrameView::RegisterPublisher { topic, keep_alive_ms } => register_body(
                topic,
                keep_alive_ms,
            ),
            FrameView::RegisterSubscriber { topic, keep_alive_ms } => register_body(
                topic,
                keep_alive_ms,
            ),
            FrameView::Message { body } => body,
            FrameView::Ack => Seq::<u8>::empty(),
            FrameView::Error { reason } => error_body(reason),
        }
    }

    /// Whether each field whose length is written in two bytes is short
    /// enough for that.
    pub open spec fn fields_fit(self) -> bool {
        match self {
            FrameView::RegisterPublisher { topic, .. } => topic.len() <= MAX_FIELD_LEN,
            FrameView::RegisterSubscriber { topic, .. } => topic.len() <= MAX_FIELD_LEN,
            FrameView::Error { reason } => reason.len() <= MAX_FIELD_LEN,
            _ => true,
        }
    }

    /// The value of the length field: one for the tag, and the body's length.
    pub open spec fn size(self) -> nat {
        1 + self.body().len()
    }

    /// The frame as it stands on the wire.
    pub open spec fn wire(self) -> Seq<u8>
        recommends
            self.size() <= u32::MAX,
    {
        be32(self.size() as u32) + seq![self.tag()] + self.body()
    }
}

/// What encoding a frame under a size limit gives: the wire bytes, or
/// `FrameTooLarge` for a frame that cannot be written, because a field is
/// too long for its length prefix or because the length field would exceed
/// the limit.
pub open spec fn encode_spec(frame: FrameView, max_frame_size: u32) -> Result<Seq<u8>, ErrorKind> {
    if frame.fields_fit() && frame.size() <= max_frame_size {
        Ok(frame.wire())
    } else {
        Err(ErrorKind::FrameTooLarge)
    }
}

/// Topic and keep-alive of a register body, or `None` where the body is
/// shorter than its own length prefix asks.
pub open spec fn parse_register(body: Seq<u8>) -> Option<(Seq<u8>, u32)> {
    if body.len() < 2 {
        None
    } else {
        let n = be16_value(body) as int;
        if body.len() < 2 + n + 4 {
            None
        } else {
            Some((body.subrange(2, 2 + n), be32_value(body.subrange(2 + n, 2 + n + 4)) as u32))
        }
    }
}

/// Reason of an error body, or `None` where the body is shorter than its own
/// length prefix asks.
pub open spec fn parse_reason(body: Seq<u8>) -> Option<Seq<u8>> {
    if body.len() < 2 {
        None
    } else {
        let n = be16_value(body) as int;
        if body.len() < 2 + n {
            None
        } else {
            Some(body.subrange(2, 2 + n))
        }
    }
}

/// The frame that a tag and a body spell, or `None` for an unknown tag or a
/// body shorter than required. Bytes of a body beyond what its layout asks
/// for are passed over.
pub open spec fn parse_body(tag: u8, body: Seq<u8>) -> Option<FrameView> {
    if tag == TAG_REGISTER_PUBLISHER {
        match parse_register(body) {
            Some((topic, keep_alive_ms)) => Some(
                FrameView::RegisterPublisher { topic, keep_alive_ms },
            ),
            None => None,
        }
    } else if tag == TAG_REGISTER_SUBSCRIBER {
        match parse_register(body) {
            Some((topic, keep_alive_ms)) => Some(
                FrameView::RegisterSubscriber { topic, keep_alive_ms },
            ),
            None => None,
        }
    } else if tag == TAG_MESSAGE {
        Some(FrameView::Message { body })
    } else if tag == TAG_ACK {
        Some(FrameView::Ack)
    } else if tag == TAG_ERROR {
        match parse_reason(body) {
            Some(reason) => Some(FrameView::Error { reason }),
            None => None,
        }
    } else {
        None
    }
}

/// Outcome of looking for one frame at the start of a buffer.
pub enum Decoded {
    /// The buffer does not hold a whole frame yet.
    Incomplete,
    /// The buffer starts with this frame, which takes this many bytes.
    Frame(FrameView, nat),
    /// The buffer starts with bytes that are no acceptable frame.
    Reject(ErrorKind),
}

/// What the start of `buf` holds under a size limit. Fewer than four bytes,
/// or fewer than the length field announces, is `Incomplete`. A length field
/// of 0 is `Malformed`; one over the limit is `FrameTooLarge`, whatever
/// follows it. A whole frame with an unknown tag or a body shorter than
/// required is `Malformed`.
pub open spec fn decode_spec(buf: Seq<u8>, max_frame_size: u32) -> Decoded {
    if buf.len() < 4 {
        Decoded::Incomplete
    } else {
        let n = be32_value(buf);
        if n < 1 {
            Decoded::Reject(ErrorKind::Malformed)
        } else if n > max_frame_size {
            Decoded::Reject(ErrorKind::FrameTooLarge)
        } else if buf.len() < 4 + n {
            Decoded::Incomplete
        } else {
            match parse_body(buf[4], buf.subrange(5, 4 + n as int)) {
                Some(frame) => Decoded::Frame(frame, 4 + n),
                None => Decoded::Reject(ErrorKind::Malformed),
            }
        }
    }
}

/// Appends the bytes of `src` to `out`.
pub fn put_bytes(out: &mut Vec<u8>, src: &[u8])
    ensures
        final(out)@ == old(out)@ + src@,
{
    let mut i: usize = 0;
    while i < src.len()
        invariant
            i <= src@.len(),
            out@ == old(out)@ + src@.subrange(0, i as int),
        decreases src@.len() - i,
    {
        out.push(src[i]);
        i += 1;
    }
}

/// Copies the bytes of `buf` from `from` up to `to` into a vector.
pub fn copy_range(buf: &[u8], from: usize, to: usize) -> (out: Vec<u8>)
    requires
        from <= to <= buf@.len(),
    ensures
        out@ == buf@.subrange(from as int, to as int),
{
    let mut out: Vec<u8> = Vec::new();
    let mut i: usize = from;
    while i < to
        invariant
            from <= i <= to <= buf@.len(),
            out@ == buf@.subrange(from as int, i as int),
        decreases to - i,
    {
        out.push(buf[i]);
        i += 1;
    }
    out
}

impl Frame {
    /// The byte that tells the variants apart on the wire.
    pub fn tag(&self) -> (t: u8)
        ensures
            t == self@.tag(),
    {
        match self {
            Frame::RegisterPublisher { .. } => TAG_REGISTER_PUBLISHER,
            Frame::RegisterSubscriber { .. } => TAG_REGISTER_SUBSCRIBER,
            Frame::Message { .. } => TAG_MESSAGE,
            Frame::Ack => TAG_ACK,
            Frame::Error { .. } => TAG_ERROR,
        }
    }

    /// An error frame with the given reason.
    pub fn error(reason: &str) -> (frame: Frame)
        ensures
            frame@ == (FrameView::Error { reason: vstd::utf8::encode_utf8(reason@) }),
    {
        Frame::Error { reason: vstd::slice::slice_to_vec(reason.as_bytes()) }
    }

    /// A message frame with a copy of the given payload.
    pub fn message(payload: &[u8]) -> (frame: Frame)
        ensures
            frame@ == (FrameView::Message { body: payload@ }),
    {
        Frame::Message { body: vstd::slice::slice_to_vec(payload) }
    }

    /// The value that the frame's length field gets under a size limit, or
    /// `FrameTooLarge` for a frame that cannot be written under it.
    pub fn checked_size(&self, max_frame_size: u32) -> (r: Result<u32, ErrorKind>)
        ensures
            match r {
                Ok(n) => encode_spec(self@, max_frame_size) is Ok && n == self@.size(),
                Err(kind) => encode_spec(self@, max_frame_size) == Err::<Seq<u8>, ErrorKind>(kind),
            },
    {
        let body_len: usize = match self {
            Frame::RegisterPublisher { topic, .. } => {
                if topic.len() > MAX_FIELD_LEN {
                    return Err(ErrorKind::FrameTooLarge);
                }
                topic.len() + 6
            },
            Frame::RegisterSubscriber { topic, .. } => {
                if topic.len() > MAX_FIELD_LEN {
                    return Err(ErrorKind::FrameTooLarge);
                }
                topic.len() + 6
            },
            Frame::Message { body } => body.len(),
            Frame::Ack => 0,
            Frame::Error { reason } => {
                if reason.len() > MAX_FIELD_LEN {
                    return Err(ErrorKind::FrameTooLarge);
                }
                reason.len() + 2
            },
        };
        if body_len >= max_frame_size as usize {
            Err(ErrorKind::FrameTooLarge)
        } else {
            Ok((body_len + 1) as u32)
        }
    }
}

/// Appends the wire form of `frame` to `out`, or leaves `out` as it was and
/// says why the frame cannot be written.
pub fn encode_into(frame: &Frame, max_frame_size: u32, out: &mut Vec<u8>) -> (r: Result<
    (),
    ErrorKind,
>)
    ensures
        match encode_spec(frame@, max_frame_size) {
            Ok(bytes) => r is Ok && final(out)@ == old(out)@ + bytes,
            Err(kind) => r == Err::<(), ErrorKind>(kind) && final(out)@ == old(out)@,
        },
{
    let n: u32 = match frame.checked_size(max_frame_size) {
        Ok(n) => n,
        Err(kind) => {
            return Err(kind);
        },
    };
    put_u32(out, n);
    out.push(frame.tag());
    match frame {
        Frame::RegisterPublisher { topic, keep_alive_ms } => {
            put_u16(out, topic.len() as u16);
            put_bytes(out, topic.as_slice());
            put_u32(out, *keep_alive_ms);
        },
        Frame::RegisterSubscriber { topic, keep_alive_ms } => {
            put_u16(out, topic.len() as u16);
            put_bytes(out, topic.as_slice());
            put_u32(out, *keep_alive_ms);
        },
        Frame::Message { body } => {
            put_bytes(out, body.as_slice());
        },
        Frame::Ack => {},
        Frame::Error { reason } => {
            put_u16(out, reason.len() as u16);
            put_bytes(out, reason.as_slice());
        },
    }
    Ok(())
}

/// The wire form of `frame` under a size limit.
pub fn encode_frame(frame: &Frame, max_frame_size: u32) -> (r: Result<Vec<u8>, ErrorKind>)
    ensures
        match encode_spec(frame@, max_frame_size) {
            Ok(bytes) => r is Ok && r->Ok_0@ == bytes,
            Err(kind) => r is Err && r->Err_0 == kind,
        },
{
    let mut out: Vec<u8> = Vec::new();
    match encode_into(frame, max_frame_size, &mut out) {
        Ok(()) => {
            Ok(out)
        },
        Err(kind) => Err(kind),
    }
}

/// Reads a register body: the topic and the keep-alive.
fn read_register(buf: &[u8], from: usize, to: usize) -> (r: Option<(Vec<u8>, u32)>)
    requires
        from <= to <= buf@.len(),
    ensures
        match parse_register(buf@.subrange(from as int, to as int)) {
            Some((topic, keep_alive_ms)) => r is Some && r->Some_0.0@ == topic && r->Some_0.1
                == keep_alive_ms,
            None => r is None,
        },
{
    let ghost body = buf@.subrange(from as int, to as int);
    if to - from < 2 {
        return None;
    }
    let n: usize = read_u16(buf, from) as usize;
    if to - from - 2 < n || to - from - 2 - n < 4 {
        return None;
    }
    let topic = copy_range(buf, from + 2, from + 2 + n);
    let keep_alive_ms = read_u32(buf, from + 2 + n);
    assert(buf@.subrange(from + 2, from + 2 + n) =~= body.subrange(2, 2 + n));
    Some((topic, keep_alive_ms))
}

/// Reads an error body: the reason.
fn read_reason(buf: &[u8], from: usize, to: usize) -> (r: Option<Vec<u8>>)
    requires
        from <= to <= buf@.len(),
    ensures
        match parse_reason(buf@.subrange(from as int, to as int)) {
            Some(reason) => r is Some && r->Some_0@ == reason,
            None => r is None,
        },
{
    if to - from < 2 {
        return None;
    }
    let n: usize = read_u16(buf, from) as usize;
    if to - from - 2 < n {
        return None;
    }
    let reason = copy_range(buf, from + 2, from + 2 + n);
    Some(reason)
}

/// Looks for one frame at the start of `buf`. `Ok(None)` asks for more
/// bytes; `Ok(Some(..))` gives the frame and the number of bytes it took.
pub fn decode_frame(buf: &[u8], max_frame_size: u32) -> (r: Result<
    Option<(Frame, usize)>,
    ErrorKind,
>)
    ensures
        match decode_spec(buf@, max_frame_size) {
            Decoded::Incomplete => r is Ok && r->Ok_0 is None,
            Decoded::Frame(frame, used) => r is Ok && r->Ok_0 is Some && r->Ok_0->Some_0.0@
                == frame && r->Ok_0->Some_0.1 == used,
            Decoded::Reject(kind) => r is Err && r->Err_0 == kind,
        },
{
    if buf.len() < 4 {
        return Ok(None);
    }
    let n: u32 = read_u32(buf, 0);
    if n < 1 {
        return Err(ErrorKind::Malformed);
    }
    if n > max_frame_size {
        return Err(ErrorKind::FrameTooLarge);
    }
    if buf.len() - 4 < n as usize {
        return Ok(None);
    }
    let end: usize = 4 + n as usize;
    let tag: u8 = buf[4];
    let frame = if tag == TAG_REGISTER_PUBLISHER {
        match read_register(buf, HEADER_LEN, end) {
            Some((topic, keep_alive_ms)) => Frame::RegisterPublisher { topic, keep_alive_ms },
            None => {
                return Err(ErrorKind::Malformed);
            },
        }
    } else if tag == TAG_REGISTER_SUBSCRIBER {
        match read_register(buf, HEADER_LEN, end) {
            Some((topic, keep_alive_ms)) => Frame::RegisterSubscriber { topic, keep_alive_ms },
            None => {
                return Err(ErrorKind::Malformed);
            },
        }
    } else if tag == TAG_MESSAGE {
        Frame::Message { body: copy_range(buf, HEADER_LEN, end) }
    } else if tag == TAG_ACK {
        Frame::Ack
    } else if tag == TAG_ERROR {
        match read_reason(buf, HEADER_LEN, end) {
            Some(reason) => Frame::Error { reason },
            None => {
                return Err(ErrorKind::Malformed);
            },
        }
    } else {
        return Err(ErrorKind::Malformed);
    };
    Ok(Some((frame, end)))
}

/// A frame codec with its size limit: what a connection is configured with.
#[derive(Clone, Copy, Debug)]
pub struct FrameCodec {
    max_frame_size: u32,
}

impl FrameCodec {
    /// The largest length field that this codec writes or accepts.
    pub closed spec fn limit(&self) -> u32 {
        self.max_frame_size
    }

    /// A codec with the default limit of 16 MiB.
    pub fn new() -> (codec: FrameCodec)
        ensures
            codec.limit() == DEFAULT_MAX_FRAME_SIZE,
    {
        FrameCodec { max_frame_size: DEFAULT_MAX_FRAME_SIZE }
    }

    /// A codec with the given limit.
    pub fn with_max_frame_size(max_frame_size: u32) -> (codec: FrameCodec)
        ensures
            codec.limit() == max_frame_size,
    {
        FrameCodec { max_frame_size }
    }

    /// The largest length field that this codec writes or accepts.
    pub fn max_frame_size(&self) -> (max: u32)
        ensures
            max == self.limit(),
    {
        self.max_frame_size
    }

    /// Appends the wire form of `frame` to `out`, or leaves `out` as it was
    /// and says why the frame cannot be written.
    pub fn encode(&self, frame: &Frame, out: &mut Vec<u8>) -> (r: Result<(), ErrorKind>)
        ensures
            match encode_spec(frame@, self.limit()) {
                Ok(bytes) => r is Ok && final(out)@ == old(out)@ + bytes,
                Err(kind) => r == Err::<(), ErrorKind>(kind) && final(out)@ == old(out)@,
            },
    {
        encode_into(frame, self.max_frame_size, out)
    }

    /// Takes one frame off the front of `buf`. While `buf` holds no whole
    /// frame it is left alone and `Ok(None)` asks for more bytes; so it is
    /// on an error. A frame that is returned has been removed from `buf`,
    /// and what followed it stays.
    pub fn decode(&self, buf: &mut Vec<u8>) -> (r: Result<Option<Frame>, ErrorKind>)
        ensures
            match decode_spec(old(buf)@, self.limit()) {
                Decoded::Incomplete => r is Ok && r->Ok_0 is None && final(buf)@ == old(buf)@,
                Decoded::Frame(frame, used) => r is Ok && r->Ok_0 is Some && r->Ok_0->Some_0@
                    == frame && final(buf)@ == old(buf)@.subrange(
                    used as int,
                    old(buf)@.len() as int,
                ),
                Decoded::Reject(kind) => r is Err && r->Err_0 == kind && final(buf)@ == old(buf)@,
            },
    {
        match decode_frame(buf.as_slice(), self.max_frame_size) {
            Ok(Some((frame, used))) => {
                let rest = buf.split_off(used);
                *buf = rest;
                Ok(Some(frame))
            },
            Ok(None) => Ok(None),
            Err(kind) => Err(kind),
        }
    }
}

impl Default for FrameCodec {
    fn default() -> (codec: FrameCodec)
        ensures
            codec.limit() == DEFAULT_MAX_FRAME_SIZE,
    {
        FrameCodec::new()
    }
}

/// The wire form of a frame is four bytes of length, one of tag, and the
/// body.
pub proof fn lemma_wire_len(frame: FrameView)
    requires
        frame.size() <= u32::MAX,
    ensures
        frame.wire().len() == 4 + frame.size(),
        be32_value(frame.wire()) == frame.size(),
        frame.wire()[4] == frame.tag(),
        frame.wire().subrange(5, 4 + frame.size() as int) == frame.body(),
{
}

/// A body that was laid out for a frame parses back to that frame.
pub proof fn lemma_parse_body(frame: FrameView)
    requires
        frame.fields_fit(),
    ensures
        parse_body(frame.tag(), frame.body()) == Some(frame),
{
    match frame {
        FrameView::RegisterPublisher { topic, keep_alive_ms } => {
            lemma_parse_register(topic, keep_alive_ms);
        },
        FrameView::RegisterSubscriber { topic, keep_alive_ms } => {
            lemma_parse_register(topic, keep_alive_ms);
        },
        FrameView::Message { body } => {},
        FrameView::Ack => {},
        FrameView::Error { reason } => {
            let body = error_body(reason);
            let n = reason.len() as u16;
            crate::wire::lemma_be16_value(n, reason);
            assert(body.subrange(2, 2 + n as int) =~= reason);
        },
    }
}

/// A register body parses back to the topic and keep-alive it was laid out
/// for.
pub proof fn lemma_parse_register(topic: Seq<u8>, keep_alive_ms: u32)
    requires
        topic.len() <= MAX_FIELD_LEN,
    ensures
        parse_register(register_body(topic, keep_alive_ms)) == Some((topic, keep_alive_ms)),
{
    let body = register_body(topic, keep_alive_ms);
    let n = topic.len() as u16;
    crate::wire::lemma_be16_value(n, topic + be32(keep_alive_ms));
    assert(body.subrange(2 + n as int, 2 + n as int + 4) =~= be32(keep_alive_ms));
    crate::wire::lemma_be32_value(keep_alive_ms, Seq::<u8>::empty());
}

/// Decoding inverts encoding: whenever a frame can be encoded under a size
/// limit, a buffer that starts with its wire form decodes, under the same
/// limit, to that frame and to the number of bytes the wire form takes,
/// whatever follows it in the buffer.
pub proof fn lemma_decode_inverts_encode(frame: FrameView, rest: Seq<u8>, max_frame_size: u32)
    requires
        encode_spec(frame, max_frame_size) is Ok,
    ensures
        decode_spec(encode_spec(frame, max_frame_size)->Ok_0 + rest, max_frame_size)
            == Decoded::Frame(frame, encode_spec(frame, max_frame_size)->Ok_0.len()),
{
    let wire = frame.wire();
    let buf = wire + rest;
    let n = frame.size();
    lemma_wire_len(frame);
    lemma_parse_body(frame);
    assert(buf.subrange(5, 4 + n as int) =~= wire.subrange(5, 4 + n as int));
}

/// A message with an empty body is a frame like any other: it takes five
/// bytes on the wire, and decodes back to itself under any limit of at least
/// one.
pub proof fn lemma_empty_message(rest: Seq<u8>, max_frame_size: u32)
    requires
        max_frame_size >= 1,
    ensures
        encode_spec(FrameView::Message { body: Seq::<u8>::empty() }, max_frame_size) == Ok::<
            Seq<u8>,
            ErrorKind,
        >(seq![0u8, 0u8, 0u8, 1u8, TAG_MESSAGE]),
        decode_spec(seq![0u8, 0u8, 0u8, 1u8, TAG_MESSAGE] + rest, max_frame_size)
            == Decoded::Frame(FrameView::Message { body: Seq::<u8>::empty() }, 5),
{
    let frame = FrameView::Message { body: Seq::<u8>::empty() };
    assert(frame.wire() =~= seq![0u8, 0u8, 0u8, 1u8, TAG_MESSAGE]);
    lemma_decode_inverts_encode(frame, rest, max_frame_size);
}

/// The size limit is sharp. A frame whose fields fit is encoded exactly when
/// its length field is at most the limit, so one of exactly the limit is
/// accepted and one a byte larger is refused with `FrameTooLarge`. A buffer
/// whose length field is over the limit is refused with `FrameTooLarge`
/// whatever follows the length; one whose length field is positive and
/// within the limit is never refused for its size.
pub proof fn lemma_size_limit(frame: FrameView, buf: Seq<u8>, max_frame_size: u32)
    requires
        frame.fields_fit(),
        buf.len() >= 4,
    ensures
        frame.size() <= max_frame_size ==> encode_spec(frame, max_frame_size) is Ok,
        frame.size() > max_frame_size ==> encode_spec(frame, max_frame_size) == Err::<
            Seq<u8>,
            ErrorKind,
        >(ErrorKind::FrameTooLarge),
        be32_value(buf) > max_frame_size ==> decode_spec(buf, max_frame_size) == Decoded::Reject(
            ErrorKind::FrameTooLarge,
        ),
        1 <= be32_value(buf) <= max_frame_size ==> decode_spec(buf, max_frame_size)
            != Decoded::Reject(ErrorKind::FrameTooLarge),
{
}

/// The bytes of a stream on which the frames were written one after the
/// other.
pub open spec fn wire_of_all(frames: Seq<FrameView>) -> Seq<u8>
    decreases frames.len(),
{
    if frames.len() == 0 {
        Seq::<u8>::empty()
    } else {
        frames[0].wire() + wire_of_all(frames.drop_first())
    }
}

/// The first `count` frames of a stream and the bytes that follow them, or
/// `None` where the stream does not start with that many whole, acceptable
/// frames.
pub open spec fn frames_at(buf: Seq<u8>, max_frame_size: u32, count: nat) -> Option<
    (Seq<FrameView>, Seq<u8>),
>
    decreases count,
{
    if count == 0 {
        Some((Seq::<FrameView>::empty(), buf))
    } else {
        match decode_spec(buf, max_frame_size) {
            Decoded::Frame(frame, used) => match frames_at(
                buf.subrange(used as int, buf.len() as int),
                max_frame_size,
                (count - 1) as nat,
            ) {
                Some((frames, rest)) => Some((seq![frame] + frames, rest)),
                None => None,
            },
            _ => None,
        }
    }
}

/// A stream gives back what was written to it, in order: when frames that
/// can each be encoded under a size limit are written one after the other,
/// decoding frame after frame under the same limit yields exactly those
/// frames in the order in which they were written, and leaves what follows
/// them.
pub proof fn lemma_frames_decode_in_order(
    frames: Seq<FrameView>,
    rest: Seq<u8>,
    max_frame_size: u32,
)
    requires
        forall|i: int| 0 <= i < frames.len() ==> encode_spec(#[trigger] frames[i], max_frame_size) is Ok,
    ensures
        frames_at(wire_of_all(frames) + rest, max_frame_size, frames.len()) == Some((frames, rest)),
    decreases frames.len(),
{
    if frames.len() > 0 {
        let first = frames[0];
        let others = frames.drop_first();
        let tail = wire_of_all(others) + rest;
        let buf = wire_of_all(frames) + rest;
        assert(buf =~= first.wire() + tail);
        lemma_decode_inverts_encode(first, tail, max_frame_size);
        let used = first.wire().len();
        assert(buf.subrange(used as int, buf.len() as int) =~= tail);
        lemma_frames_decode_in_order(others, rest, max_frame_size);
    }
}

} // verus!
