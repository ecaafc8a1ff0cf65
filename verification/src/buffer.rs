//! Frames in and out of a `BytesMut`, the byte buffer that a framed
//! transport reads into and writes from.

use vstd::prelude::*;
use bytes::{Buf, BytesMut};
use crate::error::ErrorKind;
use crate::frame::{decode_frame, decode_spec, encode_frame, encode_spec, Decoded, Frame, FrameCodec};

verus! {

/// Declares `bytes::BytesMut`; nothing is said of its fields.
#[verifier::external_type_specification]
#[verifier::external_body]
pub struct ExBytesMut(bytes::BytesMut);

/// The bytes that a buffer holds, first to last.
pub uninterp spec fn contents(buffer: BytesMut) -> Seq<u8>;

/// `BytesMut::len`: the number of bytes that the buffer holds.
#[verifier::external_body]
fn buffer_len(buffer: &BytesMut) -> (len: usize)
    ensures
        len == contents(*buffer).len(),
{
    buffer.len()
}

/// `BytesMut::as_ref`: the bytes that the buffer holds, as a slice.
#[verifier::external_body]
fn buffer_bytes(buffer: &BytesMut) -> (bytes: &[u8])
    ensures
        bytes@ == contents(*buffer),
{
    buffer.as_ref()
}

/// `Buf::advance` on a `BytesMut`: drops the first `count` bytes and keeps
/// the rest. It panics where `count` exceeds the length, which `requires`
/// leaves out.
#[verifier::external_body]
fn buffer_advance(buffer: &mut BytesMut, count: usize)
    requires
        count <= contents(*old(buffer)).len(),
    ensures
        contents(*final(buffer)) == contents(*old(buffer)).subrange(
            count as int,
            contents(*old(buffer)).len() as int,
        ),
{
    buffer.advance(count)
}

/// `BytesMut::extend_from_slice`: appends the bytes, growing the buffer as
/// needed. It panics where the new length overflows, which `requires`
/// leaves out.
#[verifier::external_body]
fn buffer_extend(buffer: &mut BytesMut, bytes: &[u8])
    requires
        contents(*old(buffer)).len() + bytes@.len() <= usize::MAX,
    ensures
        contents(*final(buffer)) == contents(*old(buffer)) + bytes@,
{
    buffer.extend_from_slice(bytes)
}

/// What appending a frame to a buffer that holds `held` bytes gives: the
/// frame's wire form, or `FrameTooLarge` for a frame that cannot be written
/// under the limit or whose wire form the buffer cannot take without its
/// length overflowing.
pub open spec fn append_spec(frame: crate::frame::FrameView, max_frame_size: u32, held: nat)
    -> Result<Seq<u8>, ErrorKind> {
    match encode_spec(frame, max_frame_size) {
        Ok(bytes) => if held + bytes.len() <= usize::MAX {
            Ok(bytes)
        } else {
            Err(ErrorKind::FrameTooLarge)
        },
        Err(kind) => Err(kind),
    }
}

impl FrameCodec {
    /// Appends the wire form of `frame` to `dst`, or leaves `dst` as it was
    /// and says why the frame cannot be written.
    pub fn encode_buffer(&self, frame: &Frame, dst: &mut BytesMut) -> (r: Result<(), ErrorKind>)
        ensures
            match append_spec(frame@, self.limit(), contents(*old(dst)).len()) {
                Ok(bytes) => r is Ok && contents(*final(dst)) == contents(*old(dst)) + bytes,
                Err(kind) => r == Err::<(), ErrorKind>(kind) && contents(*final(dst)) == contents(
                    *old(dst),
                ),
            },
    {
        match encode_frame(frame, self.max_frame_size()) {
            Ok(bytes) => {
                if bytes.len() > usize::MAX - buffer_len(dst) {
                    return Err(ErrorKind::FrameTooLarge);
                }
                buffer_extend(dst, bytes.as_slice());
                Ok(())
            },
            Err(kind) => Err(kind),
        }
    }

    /// Takes one frame off the front of `src`. While `src` holds no whole
    /// frame it is left alone and `Ok(None)` asks for more bytes; so it is
    /// on an error. A frame that is returned has been removed from `src`,
    /// and what followed it stays.
    pub fn decode_buffer(&self, src: &mut BytesMut) -> (r: Result<Option<Frame>, ErrorKind>)
        ensures
            match decode_spec(contents(*old(src)), self.limit()) {
                Decoded::Incomplete => r is Ok && r->Ok_0 is None && contents(*final(src))
                    == contents(*old(src)),
                Decoded::Frame(frame, used) => r is Ok && r->Ok_0 is Some && r->Ok_0->Some_0@
                    == frame && contents(*final(src)) == contents(*old(src)).subrange(
                    used as int,
                    contents(*old(src)).len() as int,
                ),
                Decoded::Reject(kind) => r is Err && r->Err_0 == kind && contents(*final(src))
                    == contents(*old(src)),
            },
    {
        let decoded = decode_frame(buffer_bytes(src), self.max_frame_size());
        match decoded {
            Ok(Some((frame, used))) => {
                buffer_advance(src, used);
                Ok(Some(frame))
            },
            Ok(None) => Ok(None),
            Err(kind) => Err(kind),
        }
    }
}

} // verus!
