use vstd::prelude::*;
use vstd::string::StringSliceAdditionalSpecFns;
use vstd::utf8::{
    decode_utf8, encode_utf8, encode_utf8_decode_utf8, encode_utf8_valid_utf8, valid_utf8,
};
use crate::error::{ErrorKind, MozimError};

verus! {

/// The four big-endian bytes of `n`.
pub open spec fn be32(n: u32) -> Seq<u8> {
    seq![
        (n / 16777216) as u8,
        ((n / 65536) % 256) as u8,
        ((n / 256) % 256) as u8,
        (n % 256) as u8,
    ]
}

/// The number that four big-endian bytes stand for.
pub open spec fn be32_value(b: Seq<u8>) -> int {
    b[0] * 16777216 + b[1] * 65536 + b[2] * 256 + b[3]
}

/// One frame: the payload's length in four big-endian bytes, then the payload.
pub open spec fn frame_of(payload: Seq<u8>) -> Seq<u8> {
    be32(payload.len() as u32) + payload
}

/// Reading the length prefix of a frame gives back the length it was written
/// with.
pub proof fn lemma_length_prefix_round_trip(n: u32)
    ensures
        be32_value(be32(n)) == n,
{
    let b = be32(n);
    assert(b[0] == n / 16777216);
    assert(b[1] == (n / 65536) % 256);
    assert(b[2] == (n / 256) % 256);
    assert(b[3] == n % 256);
    assert((n / 16777216) * 16777216 + ((n / 65536) % 256) * 65536 + ((n / 256) % 256) * 256 + n
        % 256 == n) by (nonlinear_arith);
}

/// A frame written for a text is read back as that text: its four-byte
/// prefix announces the payload's length, and the payload is valid UTF-8
/// that decodes to the text.
pub proof fn lemma_frame_round_trip(text: Seq<char>)
    requires
        encode_utf8(text).len() <= u32::MAX,
    ensures
        be32_value(frame_of(encode_utf8(text)).take(4)) == encode_utf8(text).len(),
        frame_of(encode_utf8(text)).skip(4) == encode_utf8(text),
        valid_utf8(frame_of(encode_utf8(text)).skip(4)),
        decode_utf8(frame_of(encode_utf8(text)).skip(4)) == text,
{
    let payload = encode_utf8(text);
    let f = frame_of(payload);
    lemma_length_prefix_round_trip(payload.len() as u32);
    assert(f.take(4) =~= be32(payload.len() as u32));
    assert(f.skip(4) =~= payload);
    encode_utf8_valid_utf8(text);
    encode_utf8_decode_utf8(text);
}

/// Frames the UTF-8 bytes of `text`.
pub fn encode_frame(text: &str) -> (r: Vec<u8>)
    requires
        text.spec_bytes().len() <= u32::MAX,
    ensures
        r@ == frame_of(text.spec_bytes()),
{
    let bytes = text.as_bytes();
    let n = bytes.len() as u32;
    let mut out: Vec<u8> = Vec::new();
    out.push((n / 16777216) as u8);
    out.push(((n / 65536) % 256) as u8);
    out.push(((n / 256) % 256) as u8);
    out.push((n % 256) as u8);
    let mut i: usize = 0;
    while i < bytes.len()
        invariant
            bytes@ == text.spec_bytes(),
            n as int == bytes@.len(),
            i <= bytes@.len(),
            out@ == be32(n) + bytes@.take(i as int),
        decreases bytes@.len() - i,
    {
        out.push(bytes[i]);
        assert(bytes@.take(i as int + 1) =~= bytes@.take(i as int).push(bytes@[i as int]));
        assert(out@ =~= be32(n) + bytes@.take(i as int + 1));
        i = i + 1;
    }
    assert(bytes@.take(bytes@.len() as int) =~= bytes@);
    out
}

/// The payload length that a frame's four-byte prefix announces.
pub fn frame_length(header: [u8; 4]) -> (r: u32)
    ensures
        r == be32_value(header@),
{
    let v = header[0] as u32 * 16777216 + header[1] as u32 * 65536 + header[2] as u32 * 256
        + header[3] as u32;
    v
}

/// The text with which std describes why `b` is not valid UTF-8 (the
/// `Display` of the error that `String::from_utf8` returns for it).
pub uninterp spec fn utf8_error_text(b: Seq<u8>) -> Seq<char>;

/// Relies on `String::from_utf8`: it accepts exactly the byte sequences that
/// are valid UTF-8, and the string then holds the text they encode; on
/// other bytes its error is turned into its message.
#[verifier::external_body]
fn utf8_text(bytes: Vec<u8>) -> (r: Result<String, String>)
    ensures
        r is Ok <==> valid_utf8(bytes@),
        r is Ok ==> r->Ok_0@ == decode_utf8(bytes@),
        r is Err ==> r->Err_0@ == utf8_error_text(bytes@),
{
    String::from_utf8(bytes).map_err(|e| e.to_string())
}

/// Reads the payload of a frame as text; bytes that are not UTF-8 are an
/// IPC error that carries std's description of the fault.
pub fn decode_payload(bytes: Vec<u8>) -> (r: Result<String, MozimError>)
    ensures
        r is Ok <==> valid_utf8(bytes@),
        r is Ok ==> r->Ok_0@ == decode_utf8(bytes@),
        r is Err ==> r->Err_0.kind == ErrorKind::IpcError && r->Err_0.msg@ == utf8_error_text(
            bytes@,
        ),
{
    match utf8_text(bytes) {
        Ok(s) => Ok(s),
        Err(m) => Err(MozimError::ipc_error(m)),
    }
}

} // verus!
