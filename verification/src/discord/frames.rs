//! The frame format of Discord's local RPC socket.
//!
//! A frame is an 8-byte header (the opcode, then the payload's length, each a
//! little-endian `u32`) followed by the payload, which is UTF-8 JSON text.
use vstd::prelude::*;
use vstd::string::*;
use vstd::utf8::*;

verus! {

/// Length of a frame header in bytes.
pub const HEADER_LEN: usize = 8;

/// The value of four bytes read as a little-endian unsigned integer.
pub open spec fn le_u32(b: Seq<u8>) -> int
    recommends
        b.len() == 4,
{
    b[0] + 256 * b[1] + 65536 * b[2] + 16777216 * b[3]
}

/// The four little-endian bytes of a value below `2^32`.
pub open spec fn u32_le(x: int) -> Seq<u8> {
    seq![(x % 256) as u8, ((x / 256) % 256) as u8, ((x / 65536) % 256) as u8, ((x / 16777216) % 256) as u8]
}

/// The value that a frame's length field holds for a payload of `len` bytes:
/// the length taken modulo `2^32`, as the field is 32 bits wide.
pub open spec fn length_field(len: nat) -> int {
    len as int % 4294967296
}

/// The bytes of a frame with the given opcode and payload.
pub open spec fn frame_bytes(opcode: u32, payload: Seq<u8>) -> Seq<u8> {
    u32_le(opcode as int) + u32_le(length_field(payload.len())) + payload
}

/// Why a payload is not UTF-8, as `std::str::Utf8Error` reports it.
#[derive(Debug)]
pub struct Utf8Failure {
    /// The length of the longest prefix that is valid UTF-8.
    pub valid_up_to: usize,
    /// The length of the invalid sequence after that prefix; `None` where the
    /// input ended in the middle of a sequence.
    pub error_len: Option<usize>,
}

/// Failure to read a frame.
#[derive(Debug)]
pub enum ReadError {
    /// The stream failed; the text is the I/O error's message.
    Io(String),
    /// The payload is not UTF-8.
    Utf8(Utf8Failure),
    /// The payload is not JSON; the text is the parser's message.
    Json(String),
}

/// Failure to write a frame.
#[derive(Debug)]
pub enum WriteError {
    /// The stream failed; the text is the I/O error's message.
    Io(String),
    /// The payload could not be serialized; the text is the serializer's message.
    Json(String),
}

proof fn lemma_u32_le_roundtrip(x: int)
    requires
        0 <= x < 4294967296,
    ensures
        u32_le(x).len() == 4,
        le_u32(u32_le(x)) == x,
{
    let b0 = x % 256;
    let q1 = x / 256;
    let b1 = q1 % 256;
    let q2 = q1 / 256;
    let b2 = q2 % 256;
    let q3 = q2 / 256;
    assert(x == 256 * q1 + b0);
    assert(q1 == 256 * q2 + b1);
    assert(q2 == 256 * q3 + b2);
    assert(0 <= q3 < 256);
    assert(x / 65536 == q2) by {
        vstd::arithmetic::div_mod::lemma_div_denominator(x, 256, 256);
    }
    assert(x / 16777216 == q3) by {
        vstd::arithmetic::div_mod::lemma_div_denominator(x, 256, 256);
        vstd::arithmetic::div_mod::lemma_div_denominator(x, 65536, 256);
    }
    assert(q3 % 256 == q3);
}

proof fn lemma_le_u32_bytes_roundtrip(b: Seq<u8>)
    requires
        b.len() == 4,
    ensures
        0 <= le_u32(b) < 4294967296,
        u32_le(le_u32(b)) == b,
{
    let x = le_u32(b);
    let b0 = b[0] as int;
    let b1 = b[1] as int;
    let b2 = b[2] as int;
    let b3 = b[3] as int;
    let q1 = b1 + 256 * b2 + 65536 * b3;
    let q2 = b2 + 256 * b3;
    assert(x == 256 * q1 + b0);
    assert(x % 256 == b0 && x / 256 == q1) by {
        vstd::arithmetic::div_mod::lemma_fundamental_div_mod_converse(x, 256, q1, b0);
    }
    assert(q1 % 256 == b1 && q1 / 256 == q2) by {
        vstd::arithmetic::div_mod::lemma_fundamental_div_mod_converse(q1, 256, q2, b1);
    }
    assert(q2 % 256 == b2 && q2 / 256 == b3) by {
        vstd::arithmetic::div_mod::lemma_fundamental_div_mod_converse(q2, 256, b3, b2);
    }
    assert(x / 65536 == q2) by {
        vstd::arithmetic::div_mod::lemma_div_denominator(x, 256, 256);
    }
    assert(x / 16777216 == b3) by {
        vstd::arithmetic::div_mod::lemma_div_denominator(x, 256, 256);
        vstd::arithmetic::div_mod::lemma_div_denominator(x, 65536, 256);
    }
    assert(u32_le(x) =~= b);
}

fn push_u32_le(out: &mut Vec<u8>, x: u32)
    ensures
        final(out)@ == old(out)@ + u32_le(x as int),
{
    out.push((x % 256) as u8);
    out.push(((x / 256) % 256) as u8);
    out.push(((x / 65536) % 256) as u8);
    out.push(((x / 16777216) % 256) as u8);
    assert(final(out)@ =~= old(out)@ + u32_le(x as int));
}

/// The frame that carries `payload` under `opcode`. The length field holds the
/// payload's length modulo `2^32`.
pub fn encode_frame(opcode: u32, payload: &[u8]) -> (r: Vec<u8>)
    ensures
        r@ == frame_bytes(opcode, payload@),
{
    let len32: u32 = ((payload.len() as u64) % 4294967296u64) as u32;
    let mut out: Vec<u8> = Vec::new();
    push_u32_le(&mut out, opcode);
    push_u32_le(&mut out, len32);
    let ghost head = out@;
    let mut i: usize = 0;
    while i < payload.len()
        invariant
            i <= payload@.len(),
            out@ == head + payload@.subrange(0, i as int),
        decreases payload@.len() - i,
    {
        out.push(payload[i]);
        i = i + 1;
        assert(out@ =~= head + payload@.subrange(0, i as int));
    }
    assert(payload@.subrange(0, payload@.len() as int) =~= payload@);
    out
}

/// The opcode and the payload length that a frame header holds.
pub fn decode_header(header: &[u8; 8]) -> (r: (u32, usize))
    ensures
        r.0 as int == le_u32(header@.subrange(0, 4)),
        r.1 as int == le_u32(header@.subrange(4, 8)),
{
    let opcode: u32 = header[0] as u32 + header[1] as u32 * 256 + header[2] as u32 * 65536
        + header[3] as u32 * 16777216;
    let length: u32 = header[4] as u32 + header[5] as u32 * 256 + header[6] as u32 * 65536
        + header[7] as u32 * 16777216;
    (opcode, length as usize)
}

/// Calls `std::str::from_utf8`. Its documentation: the result is `Ok` exactly
/// when the bytes are valid UTF-8, and then holds the text that they encode;
/// on an error, `valid_up_to` is the length of a valid UTF-8 prefix.
#[verifier::external_body]
fn str_from_utf8(bytes: &[u8]) -> (r: Result<&str, Utf8Failure>)
    ensures
        r is Ok <==> valid_utf8(bytes@),
        r matches Ok(s) ==> s@ == decode_utf8(bytes@),
        r matches Err(e) ==> e.valid_up_to <= bytes@.len() && valid_utf8(bytes@.take(e.valid_up_to as int)),
{
    match std::str::from_utf8(bytes) {
        Ok(s) => Ok(s),
        Err(e) => Err(Utf8Failure { valid_up_to: e.valid_up_to(), error_len: e.error_len() }),
    }
}

/// The text that a frame's payload holds, or the reason it is not UTF-8.
pub fn decode_payload(payload: &[u8]) -> (r: Result<&str, ReadError>)
    ensures
        r is Ok <==> valid_utf8(payload@),
        r matches Ok(s) ==> s@ == decode_utf8(payload@),
        r matches Err(e) ==> e is Utf8,
        r matches Err(ReadError::Utf8(f)) ==> f.valid_up_to <= payload@.len() && valid_utf8(
            payload@.take(f.valid_up_to as int),
        ),
{
    match str_from_utf8(payload) {
        Ok(s) => Ok(s),
        Err(e) => Err(ReadError::Utf8(e)),
    }
}

/// serde_json's JSON value, carried through the frame functions unopened.
#[verifier::external_type_specification]
#[verifier::external_body]
pub struct ExJsonValue(serde_json::Value);

/// Whether `serde_json::from_str::<serde_json::Value>` accepts the text.
pub uninterp spec fn is_json(text: Seq<char>) -> bool;

/// The value that `serde_json::from_str::<serde_json::Value>` parses from the text.
pub uninterp spec fn json_value(text: Seq<char>) -> serde_json::Value;

/// The text that `serde_json::to_string` writes for a JSON value.
pub uninterp spec fn json_text(value: serde_json::Value) -> Seq<char>;

/// Calls `serde_json::from_str::<serde_json::Value>`; an error is turned into
/// its message. Whether the text parses is named `is_json`, and the value
/// parsed is named `json_value`: both depend on the text alone.
#[verifier::external_body]
fn parse_json(text: &str) -> (r: Result<serde_json::Value, String>)
    ensures
        r is Ok <==> is_json(text@),
        r matches Ok(v) ==> v == json_value(text@),
{
    match serde_json::from_str(text) {
        Ok(v) => Ok(v),
        Err(e) => Err(e.to_string()),
    }
}

/// Calls `serde_json::to_string` on a JSON value; an error is turned into its
/// message. The text written is named `json_text`. The source fails only
/// where a `Serialize` impl fails or a map key is not a string; `Value`'s impl
/// writes each variant and keys its maps by strings, and the writer is a
/// `Vec`, so the call succeeds.
#[verifier::external_body]
fn json_to_string(value: &serde_json::Value) -> (r: Result<String, String>)
    ensures
        r is Ok,
        r matches Ok(t) ==> t@ == json_text(*value),
{
    match serde_json::to_string(value) {
        Ok(t) => Ok(t),
        Err(e) => Err(e.to_string()),
    }
}

/// The JSON value that a frame's payload holds: the payload must be UTF-8,
/// then JSON; the first check that fails gives the error.
pub fn read_payload(payload: &[u8]) -> (r: Result<serde_json::Value, ReadError>)
    ensures
        r is Ok <==> valid_utf8(payload@) && is_json(decode_utf8(payload@)),
        r matches Ok(v) ==> v == json_value(decode_utf8(payload@)),
        r matches Err(e) ==> (e is Utf8 <==> !valid_utf8(payload@)),
        r matches Err(e) ==> (e is Utf8 || e is Json),
        r matches Err(ReadError::Utf8(f)) ==> f.valid_up_to <= payload@.len() && valid_utf8(
            payload@.take(f.valid_up_to as int),
        ),
{
    let text = decode_payload(payload)?;
    match parse_json(text) {
        Ok(v) => Ok(v),
        Err(message) => Err(ReadError::Json(message)),
    }
}

/// The frame that carries `value` as JSON text under `opcode`.
pub fn write_payload(opcode: u32, value: &serde_json::Value) -> (r: Result<Vec<u8>, WriteError>)
    ensures
        r is Ok,
        r matches Ok(bytes) ==> bytes@ == frame_bytes(opcode, encode_utf8(json_text(*value))),
{
    match json_to_string(value) {
        Ok(text) => {
            let bytes = text.as_str().as_bytes();
            let frame = encode_frame(opcode, bytes);
            assert(frame@ == frame_bytes(opcode, encode_utf8(text@)));
            Ok(frame)
        },
        Err(message) => Err(WriteError::Json(message)),
    }
}

/// A frame written by `encode_frame` gives back, through `decode_header`, its
/// opcode and its payload's length, and the payload follows the header; the
/// payload must be shorter than `2^32` bytes for its length to fit the field.
pub proof fn lemma_frame_roundtrip(opcode: u32, payload: Seq<u8>)
    requires
        payload.len() < 4294967296,
    ensures
        frame_bytes(opcode, payload).len() == HEADER_LEN + payload.len(),
        le_u32(frame_bytes(opcode, payload).subrange(0, 4)) == opcode,
        le_u32(frame_bytes(opcode, payload).subrange(4, 8)) == payload.len(),
        frame_bytes(opcode, payload).subrange(8, 8 + payload.len() as int) == payload,
{
    lemma_u32_le_roundtrip(opcode as int);
    lemma_u32_le_roundtrip(length_field(payload.len()));
    let f = frame_bytes(opcode, payload);
    assert(f.subrange(0, 4) =~= u32_le(opcode as int));
    assert(f.subrange(4, 8) =~= u32_le(length_field(payload.len())));
    assert(f.subrange(8, 8 + payload.len() as int) =~= payload);
}

/// A frame that `write_payload` writes reads back: its header gives the
/// opcode and the payload's length, and the payload is UTF-8 whose text is
/// what `serde_json::to_string` wrote for the value, so `read_payload` gives
/// the value that serde_json parses from that text (where the text is short
/// enough for the length field).
pub proof fn lemma_written_frame_reads_back(opcode: u32, value: serde_json::Value)
    requires
        encode_utf8(json_text(value)).len() < 4294967296,
    ensures
        ({
            let payload = encode_utf8(json_text(value));
            let frame = frame_bytes(opcode, payload);
            &&& frame.len() == HEADER_LEN + payload.len()
            &&& le_u32(frame.subrange(0, 4)) == opcode
            &&& le_u32(frame.subrange(4, 8)) == payload.len()
            &&& frame.subrange(8, frame.len() as int) == payload
            &&& valid_utf8(payload)
            &&& decode_utf8(payload) == json_text(value)
        }),
{
    let payload = encode_utf8(json_text(value));
    lemma_frame_roundtrip(opcode, payload);
    encode_utf8_valid_utf8(json_text(value));
    encode_utf8_decode_utf8(json_text(value));
}

/// A JSON value written in a frame by `write_payload` is read back by
/// `decode_header` and `read_payload` as the same opcode and value, for
/// every value that serde_json parses back from the text it writes for it.
/// serde_json does not promise that of every value: by default its float
/// parsing is best-effort, and it refuses nesting deeper than its recursion
/// limit; such values are left out.
pub proof fn lemma_written_value_reads_back(opcode: u32, value: serde_json::Value)
    requires
        encode_utf8(json_text(value)).len() < 4294967296,
        is_json(json_text(value)),
        json_value(json_text(value)) == value,
    ensures
        ({
            let frame = frame_bytes(opcode, encode_utf8(json_text(value)));
            let payload = frame.subrange(8, frame.len() as int);
            &&& le_u32(frame.subrange(0, 4)) == opcode
            &&& le_u32(frame.subrange(4, 8)) == payload.len()
            &&& valid_utf8(payload)
            &&& is_json(decode_utf8(payload))
            &&& json_value(decode_utf8(payload)) == value
        }),
{
    lemma_written_frame_reads_back(opcode, value);
}

/// Any header is the header of the frames whose opcode and length it holds:
/// encoding what `decode_header` reads gives back the same eight bytes.
pub proof fn lemma_header_roundtrip(header: Seq<u8>)
    requires
        header.len() == 8,
    ensures
        u32_le(le_u32(header.subrange(0, 4))) + u32_le(le_u32(header.subrange(4, 8))) == header,
{
    lemma_le_u32_bytes_roundtrip(header.subrange(0, 4));
    lemma_le_u32_bytes_roundtrip(header.subrange(4, 8));
    assert(header.subrange(0, 4) + header.subrange(4, 8) =~= header);
}

} // verus!
