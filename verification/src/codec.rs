//! Payload codecs: how application values become the bytes of a message and
//! back.
//!
//! A codec knows nothing of frames or of the network. It is chosen when a
//! publisher or a subscriber is made, and both ends of a topic must agree on
//! it; the server never looks inside a payload.

use vstd::prelude::*;
use vstd::utf8::{decode_utf8, encode_utf8, valid_utf8};
use crate::error::ErrorKind;

verus! {

/// Turns a value into the bytes of a message. An implementation is a
/// function of the value alone.
pub trait MessageEncoder<Item> {
    /// The bytes that stand for `item`, or why it has none.
    fn encode(&self, item: Item) -> Result<Vec<u8>, ErrorKind>;
}

/// Turns the bytes of one message into a value. An implementation is a
/// function of the bytes alone.
pub trait MessageDecoder<Item> {
    /// The value that `buffer` stands for, or why it stands for none.
    fn decode(&self, buffer: &[u8]) -> Result<Item, ErrorKind>;
}

/// Declares the error of `String::from_utf8`; nothing is said of its
/// contents.
#[verifier::external_type_specification]
#[verifier::external_body]
pub struct ExFromUtf8Error(std::string::FromUtf8Error);

/// `String::from_utf8` of the standard library. It checks that the bytes
/// are valid UTF-8 and, if they are, makes them the contents of the string:
/// so the call succeeds exactly on valid UTF-8, and the bytes of the string
/// it returns are the bytes given.
#[verifier::external_body]
fn string_from_utf8(bytes: Vec<u8>) -> (r: Result<String, std::string::FromUtf8Error>)
    ensures
        r is Ok <==> valid_utf8(bytes@),
        r is Ok ==> encode_utf8(r->Ok_0@) == bytes@,
{
    String::from_utf8(bytes)
}

/// The text that UTF-8 bytes spell, or `None` for bytes that are not valid
/// UTF-8.
pub fn text_of(bytes: &[u8]) -> (r: Option<String>)
    ensures
        valid_utf8(bytes@) ==> r is Some && r->Some_0@ == decode_utf8(bytes@),
        !valid_utf8(bytes@) ==> r is None,
{
    match string_from_utf8(vstd::slice::slice_to_vec(bytes)) {
        Ok(text) => {
            proof {
                vstd::utf8::encode_utf8_decode_utf8(text@);
            }
            Some(text)
        },
        Err(_) => None,
    }
}

/// The UTF-8 string codec: a string is sent as its UTF-8 bytes.
#[derive(Clone, Copy, Debug, Default)]
pub struct StringCodec;

/// What the string codec decodes a buffer to: the text that the bytes
/// spell, or `BadEncoding` for bytes that are not valid UTF-8.
pub open spec fn string_decoded(buffer: Seq<u8>) -> Result<Seq<char>, ErrorKind> {
    if valid_utf8(buffer) {
        Ok(decode_utf8(buffer))
    } else {
        Err(ErrorKind::BadEncoding)
    }
}

impl MessageEncoder<String> for StringCodec {
    /// The UTF-8 bytes of the string. Never fails.
    fn encode(&self, item: String) -> (r: Result<Vec<u8>, ErrorKind>)
        ensures
            r is Ok,
            r->Ok_0@ == encode_utf8(item@),
    {
        Ok(vstd::slice::slice_to_vec(item.as_str().as_bytes()))
    }
}

impl MessageDecoder<String> for StringCodec {
    /// The string that the bytes spell, or `BadEncoding` for bytes that are
    /// not valid UTF-8.
    fn decode(&self, buffer: &[u8]) -> (r: Result<String, ErrorKind>)
        ensures
            match string_decoded(buffer@) {
                Ok(text) => r is Ok && r->Ok_0@ == text,
                Err(kind) => r is Err && r->Err_0 == kind,
            },
    {
        match text_of(buffer) {
            Some(text) => Ok(text),
            None => Err(ErrorKind::BadEncoding),
        }
    }
}

/// The string codec round-trips: what it encodes a text to, it decodes back
/// to that text, and never refuses.
pub proof fn lemma_string_round_trip(text: Seq<char>)
    ensures
        string_decoded(encode_utf8(text)) == Ok::<Seq<char>, ErrorKind>(text),
{
    vstd::utf8::encode_utf8_valid_utf8(text);
    vstd::utf8::encode_utf8_decode_utf8(text);
}

/// The string codec refuses exactly the buffers that are not valid UTF-8,
/// and what it accepts it decodes to a text whose encoding is the buffer.
pub proof fn lemma_string_decode(buffer: Seq<u8>)
    ensures
        string_decoded(buffer) is Ok <==> valid_utf8(buffer),
        string_decoded(buffer) is Ok ==> encode_utf8(string_decoded(buffer)->Ok_0) == buffer,
{
    if valid_utf8(buffer) {
        vstd::utf8::decode_utf8_encode_utf8(buffer);
    }
}

} // verus!
