//! Topic paths and their validation.
//!
//! A topic path is a slash-delimited UTF-8 string such as `/acmeco/stocks`.
//! Two paths name the same topic exactly when their bytes are equal.

use vstd::prelude::*;
use vstd::utf8::{
    encode_scalar, encode_utf8, is_scalar, last_continuation_byte, leading_byte_width_1,
    leading_byte_width_2, leading_byte_width_3, leading_byte_width_4,
    second_last_continuation_byte, third_last_continuation_byte,
};
use crate::error::ErrorKind;

verus! {

/// The byte that every topic path starts with: `/`.
pub const TOPIC_SEPARATOR: u8 = 0x2f;

/// A topic path, as text, is valid when it is non-empty, starts with `/` and
/// holds no NUL character.
pub open spec fn valid_topic_text(chars: Seq<char>) -> bool {
    &&& chars.len() > 0
    &&& chars[0] == '/'
    &&& forall|i: int| 0 <= i < chars.len() ==> chars[i] != '\0'
}

/// A topic path, as the bytes that stand on the wire, is valid when it is
/// non-empty, starts with `/` and holds no NUL byte.
pub open spec fn valid_topic(bytes: Seq<u8>) -> bool {
    &&& bytes.len() > 0
    &&& bytes[0] == TOPIC_SEPARATOR
    &&& forall|i: int| 0 <= i < bytes.len() ==> bytes[i] != 0
}

/// Whether no byte of `bytes` is NUL.
pub open spec fn no_nul_byte(bytes: Seq<u8>) -> bool {
    forall|i: int| 0 <= i < bytes.len() ==> bytes[i] != 0
}

/// Whether no character of `chars` is NUL.
pub open spec fn no_nul_char(chars: Seq<char>) -> bool {
    forall|i: int| 0 <= i < chars.len() ==> chars[i] != '\0'
}

/// Tests the bytes of a topic path against the rules of `valid_topic`.
pub fn is_valid_topic(bytes: &[u8]) -> (ok: bool)
    ensures
        ok == valid_topic(bytes@),
{
    if bytes.len() == 0 {
        return false;
    }
    if bytes[0] != TOPIC_SEPARATOR {
        return false;
    }
    let mut i: usize = 0;
    while i < bytes.len()
        invariant
            i <= bytes.len(),
            forall|j: int| 0 <= j < i ==> bytes@[j] != 0,
        decreases bytes.len() - i,
    {
        if bytes[i] == 0 {
            return false;
        }
        i += 1;
    }
    true
}

/// Accepts a topic path that is valid and refuses every other with
/// `InvalidTopic`.
pub fn validate_topic(topic: &str) -> (r: Result<(), ErrorKind>)
    ensures
        valid_topic_text(topic@) ==> r == Ok::<(), ErrorKind>(()),
        !valid_topic_text(topic@) ==> r == Err::<(), ErrorKind>(ErrorKind::InvalidTopic),
{
    proof {
        lemma_topic_text_bytes(topic@);
    }
    if is_valid_topic(topic.as_bytes()) {
        Ok(())
    } else {
        Err(ErrorKind::InvalidTopic)
    }
}

/// The bytes that UTF-8 uses for a scalar of two or more bytes are all at
/// least 0x80, and the one byte of a shorter scalar is the scalar itself.
proof fn lemma_scalar_bytes(s: u32)
    by (bit_vector)
    ensures
        s <= 0x7f ==> leading_byte_width_1(s) == s,
        leading_byte_width_2(s) >= 0xc0,
        leading_byte_width_3(s) >= 0xe0,
        leading_byte_width_4(s) >= 0xf0,
        last_continuation_byte(s) >= 0x80,
        second_last_continuation_byte(s) >= 0x80,
        third_last_continuation_byte(s) >= 0x80,
{
}

/// The encoding of one scalar starts with `/` only for `/` itself, and holds
/// a NUL byte only for NUL itself.
proof fn lemma_encode_scalar(s: u32)
    requires
        is_scalar(s),
    ensures
        encode_scalar(s).len() >= 1,
        encode_scalar(s)[0] == TOPIC_SEPARATOR <==> s == 0x2f,
        no_nul_byte(encode_scalar(s)) <==> s != 0,
{
    lemma_scalar_bytes(s);
    if s == 0 {
        assert(encode_scalar(s)[0] == 0);
    }
}

/// Two characters are the same exactly when their scalar values are.
proof fn lemma_char_code(c: char, d: char)
    ensures
        (c as u32 == d as u32) <==> c == d,
{
    vstd::utf8::char_u32_cast(c, c as u32);
    vstd::utf8::char_u32_cast(d, d as u32);
}

/// A text holds a NUL character exactly when its UTF-8 form holds a NUL
/// byte.
pub proof fn lemma_no_nul(chars: Seq<char>)
    ensures
        no_nul_byte(encode_utf8(chars)) <==> no_nul_char(chars),
    decreases chars.len(),
{
    if chars.len() > 0 {
        let head = encode_scalar(chars[0] as u32);
        let rest = chars.drop_first();
        let tail = encode_utf8(rest);
        let bytes = encode_utf8(chars);
        vstd::utf8::char_is_scalar(chars[0]);
        lemma_encode_scalar(chars[0] as u32);
        lemma_char_code(chars[0], '\0');
        lemma_no_nul(rest);
        if no_nul_byte(bytes) {
            assert forall|i: int| 0 <= i < head.len() implies head[i] != 0 by {
                assert(bytes[i] == head[i]);
            }
            assert forall|i: int| 0 <= i < tail.len() implies tail[i] != 0 by {
                assert(bytes[i + head.len()] == tail[i]);
            }
            assert forall|i: int| 0 <= i < chars.len() implies chars[i] != '\0' by {
                if i > 0 {
                    assert(chars[i] == rest[i - 1]);
                }
            }
        }
    }
}

/// The rules on a topic path say the same of a text and of its UTF-8 bytes:
/// the text is non-empty, starts with `/` and holds no NUL character exactly
/// when its bytes are non-empty, start with the byte `/` and hold no NUL
/// byte.
pub proof fn lemma_topic_text_bytes(chars: Seq<char>)
    ensures
        valid_topic(encode_utf8(chars)) <==> valid_topic_text(chars),
{
    lemma_no_nul(chars);
    if chars.len() > 0 {
        vstd::utf8::char_is_scalar(chars[0]);
        lemma_encode_scalar(chars[0] as u32);
        lemma_char_code(chars[0], '/');
    }
}

/// Whether two topic paths name the same topic: whether they are equal byte
/// for byte, which is to say character for character.
pub fn same_topic(a: &str, b: &str) -> (same: bool)
    ensures
        same == (a@ == b@),
{
    proof {
        vstd::utf8::encode_utf8_decode_utf8(a@);
        vstd::utf8::encode_utf8_decode_utf8(b@);
    }
    crate::wire::bytes_equal(a.as_bytes(), b.as_bytes())
}

} // verus!
