//! The framed transport's wire protocol: a 4-byte little-endian length
//! header followed by exactly that many bytes of UTF-8 text.
//!
//! Everything here is pure computation on byte and character sequences.
//! The shell around the library writes the encoded frames to the
//! connection and reads the reply bytes back; the functions below decide
//! what those bytes are and what they mean.

use vstd::prelude::*;
use vstd::bytes::{
    lemma_auto_spec_u32_to_from_le_bytes, spec_u32_from_le_bytes, spec_u32_to_le_bytes,
    u32_from_le_bytes, u32_to_le_bytes,
};
use vstd::slice::{slice_subrange, slice_to_vec};
use vstd::string::StrSliceExecFns;
use vstd::utf8::{decode_utf8, encode_utf8, encode_utf8_decode_utf8, encode_utf8_valid_utf8,
    valid_utf8};

verus! {

/// Why a frame could not be produced or understood.
#[derive(Clone, Copy, Debug, PartialEq, Eq, Structural)]
pub enum TransportError {
    /// The payload does not fit the 32-bit length header, or a reply
    /// declares more bytes than the reply ceiling allows.
    TooLong,
    /// The connection ended before the declared byte count was transferred.
    ShortRead,
    /// The received payload is not valid UTF-8 text.
    MalformedData,
}

/// The bytes of one frame carrying `payload`: the payload's length as a
/// 4-byte little-endian header, then the payload itself.
pub open spec fn frame_bytes(payload: Seq<u8>) -> Seq<u8>
    recommends
        payload.len() <= u32::MAX,
{
    spec_u32_to_le_bytes(payload.len() as u32) + payload
}

/// The payload carried by a complete frame at the front of `wire`, or
/// `None` when `wire` ends before the declared byte count.
pub open spec fn frame_payload(wire: Seq<u8>) -> Option<Seq<u8>> {
    if wire.len() < 4 {
        None
    } else {
        let len = spec_u32_from_le_bytes(wire.subrange(0, 4)) as int;
        if wire.len() < 4 + len {
            None
        } else {
            Some(wire.subrange(4, 4 + len))
        }
    }
}

/// The text carried by a frame at the front of `wire`: a short read if
/// the frame is truncated, malformed data if the payload is not UTF-8,
/// otherwise the decoded characters.
pub open spec fn decode_wire_message(wire: Seq<u8>) -> Result<Seq<char>, TransportError> {
    match frame_payload(wire) {
        None => Err(TransportError::ShortRead),
        Some(payload) => if valid_utf8(payload) {
            Ok(decode_utf8(payload))
        } else {
            Err(TransportError::MalformedData)
        },
    }
}

/// The ceiling on a declared reply length. The bare protocol puts no
/// bound on a frame, so a buggy or malicious peer could declare a huge
/// payload and drive an unbounded allocation; replies above this ceiling
/// are rejected before any buffer for them is made.
pub const MAX_REPLY_LEN: u32 = 16 * 1024 * 1024;

/// True exactly when a declared reply length is within the ceiling, so
/// that a buffer for it may be allocated.
pub fn reply_len_within_bound(len: u32) -> (r: bool)
    ensures
        r == (len <= MAX_REPLY_LEN),
{
    len <= MAX_REPLY_LEN
}

/// The 4-byte little-endian length header for a payload of `len` bytes,
/// or `TooLong` when `len` does not fit in 32 bits.
pub fn encode_len(len: usize) -> (r: Result<Vec<u8>, TransportError>)
    ensures
        len <= u32::MAX ==> (r matches Ok(h) && h@ == spec_u32_to_le_bytes(len as u32)),
        len > u32::MAX ==> r == Err::<Vec<u8>, TransportError>(TransportError::TooLong),
{
    if len > u32::MAX as usize {
        Err(TransportError::TooLong)
    } else {
        Ok(u32_to_le_bytes(len as u32))
    }
}

/// Frames a payload: its length as a little-endian header, then its
/// bytes. The first 4 bytes of every frame equal the payload length in
/// little-endian unsigned 32-bit form, whatever the length, zero
/// included.
pub fn encode_frame(payload: &Vec<u8>) -> (r: Result<Vec<u8>, TransportError>)
    ensures
        payload@.len() <= u32::MAX ==> (r matches Ok(w) && w@ == frame_bytes(payload@)),
        payload@.len() > u32::MAX ==> r == Err::<Vec<u8>, TransportError>(TransportError::TooLong),
        r matches Ok(w) ==> w@.subrange(0, 4) == spec_u32_to_le_bytes(payload@.len() as u32),
{
    proof {
        lemma_auto_spec_u32_to_from_le_bytes();
    }
    match encode_len(payload.len()) {
        Err(e) => Err(e),
        Ok(header) => {
            let mut wire = header;
            let mut body = slice_to_vec(payload.as_slice());
            wire.append(&mut body);
            proof {
                assert(wire@.subrange(0, 4) =~= spec_u32_to_le_bytes(payload@.len() as u32));
            }
            Ok(wire)
        },
    }
}

/// Encodes a text message for the wire: its UTF-8 bytes behind their
/// little-endian length header.
pub fn encode_message(msg: &str) -> (r: Result<Vec<u8>, TransportError>)
    ensures
        encode_utf8(msg@).len() <= u32::MAX ==> (r matches Ok(w) && w@ == frame_bytes(
            encode_utf8(msg@),
        )),
        encode_utf8(msg@).len() > u32::MAX ==> r == Err::<Vec<u8>, TransportError>(
            TransportError::TooLong,
        ),
{
    let bytes = msg.as_bytes_vec();
    encode_frame(&bytes)
}

/// Reads a reply's length header: the 4 header bytes interpreted as a
/// little-endian unsigned 32-bit count of payload bytes to come.
pub fn parse_len(header: &Vec<u8>) -> (r: u32)
    requires
        header@.len() == 4,
    ensures
        r == spec_u32_from_le_bytes(header@),
{
    u32_from_le_bytes(header.as_slice())
}

/// Relies on `String::from_utf8`: it returns the decoded string exactly
/// when the bytes are valid UTF-8, and fails otherwise.
#[verifier::external_body]
fn bytes_to_text(bytes: Vec<u8>) -> (r: Option<String>)
    ensures
        r is Some <==> valid_utf8(bytes@),
        r matches Some(s) ==> s@ == decode_utf8(bytes@),
{
    String::from_utf8(bytes).ok()
}

/// Decodes a reply's payload bytes: the text they encode, or malformed
/// data exactly when they are not valid UTF-8.
pub fn decode_body(body: Vec<u8>) -> (r: Result<String, TransportError>)
    ensures
        valid_utf8(body@) ==> (r matches Ok(s) && s@ == decode_utf8(body@)),
        !valid_utf8(body@) ==> r == Err::<String, TransportError>(TransportError::MalformedData),
{
    match bytes_to_text(body) {
        Some(s) => Ok(s),
        None => Err(TransportError::MalformedData),
    }
}

/// Decodes one complete captured frame: the declared byte count must be
/// present in full (else a short read), and the payload must be valid
/// UTF-8 (else malformed data).
pub fn decode_frame(wire: &Vec<u8>) -> (r: Result<String, TransportError>)
    ensures
        decode_wire_message(wire@) matches Ok(text) ==> (r matches Ok(s) && s@ == text),
        decode_wire_message(wire@) matches Err(e) ==> r == Err::<String, TransportError>(e),
{
    if wire.len() < 4 {
        return Err(TransportError::ShortRead);
    }
    let header = slice_to_vec(slice_subrange(wire.as_slice(), 0, 4));
    let len = parse_len(&header) as usize;
    if wire.len() - 4 < len {
        return Err(TransportError::ShortRead);
    }
    let body = slice_to_vec(slice_subrange(wire.as_slice(), 4, 4 + len));
    decode_body(body)
}

/// Round-trip law at the byte level: a frame built from any payload that
/// fits the header carries exactly that payload.
pub proof fn lemma_frame_round_trip(payload: Seq<u8>)
    requires
        payload.len() <= u32::MAX,
    ensures
        frame_payload(frame_bytes(payload)) == Some(payload),
{
    lemma_auto_spec_u32_to_from_le_bytes();
    let wire = frame_bytes(payload);
    assert(wire.subrange(0, 4) =~= spec_u32_to_le_bytes(payload.len() as u32));
    assert(wire.subrange(4, 4 + payload.len() as int) =~= payload);
}

/// Round-trip law for text: for any message whose UTF-8 encoding fits the
/// header, framing the message and decoding the very same frame — what an
/// echoing peer sends back — yields the message unchanged.
pub proof fn lemma_text_round_trip(m: Seq<char>)
    requires
        encode_utf8(m).len() <= u32::MAX,
    ensures
        decode_wire_message(frame_bytes(encode_utf8(m))) == Ok::<Seq<char>, TransportError>(m),
{
    lemma_frame_round_trip(encode_utf8(m));
    encode_utf8_valid_utf8(m);
    encode_utf8_decode_utf8(m);
}

/// One full exchange with an echoing peer, in memory: the message is
/// framed, the frame comes back unchanged, and the reply is decoded. For
/// every message that fits the header the result is the message itself.
pub fn echo_round_trip(msg: &str) -> (r: Result<String, TransportError>)
    ensures
        encode_utf8(msg@).len() <= u32::MAX ==> (r matches Ok(s) && s@ == msg@),
        encode_utf8(msg@).len() > u32::MAX ==> r == Err::<String, TransportError>(
            TransportError::TooLong,
        ),
{
    match encode_message(msg) {
        Err(e) => Err(e),
        Ok(wire) => {
            proof {
                lemma_text_round_trip(msg@);
            }
            decode_frame(&wire)
        },
    }
}

} // verus!
