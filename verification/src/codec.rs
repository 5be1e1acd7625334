//! The binary codec, as far as the protocol itself needs it.
//!
//! The functions here call `bincode` and are not verified: each states what
//! the codec's default configuration does with one plain value. Integers are
//! written with a fixed width, least significant byte first; a string is
//! written as its length in bytes, as a 64-bit integer, followed by its UTF-8
//! bytes. Encoding these values cannot fail: the default configuration sets
//! no limit on the size, and the bytes are written to a vector, which takes
//! whatever is written to it. Decoding reads from the front of the input and
//! ignores what follows; it fails where the input ends too early, and for a
//! string also where the bytes are no UTF-8.
//!
//! Each function hands the codec's failure on as its class: one class for
//! each variant of `bincode::ErrorKind`.

use crate::endian::{le32, le32_value, le64, le64_value};
use crate::error::CodecFault;
use vstd::prelude::*;
use vstd::utf8::{decode_utf8, encode_utf8, valid_utf8};

verus! {

/// The encoding of a string: the length of its UTF-8 form, then that form.
pub open spec fn str_wire(s: Seq<char>) -> Seq<u8> {
    le64(encode_utf8(s).len() as u64) + encode_utf8(s)
}

/// Whether `bytes` begins with a length followed by that many bytes.
pub open spec fn str_framed(bytes: Seq<u8>) -> bool {
    bytes.len() >= 8 && le64_value(bytes) <= bytes.len() - 8
}

/// The bytes that the length at the front of `bytes` announces.
pub open spec fn str_body(bytes: Seq<u8>) -> Seq<u8>
    recommends
        str_framed(bytes),
{
    bytes.subrange(8, 8 + le64_value(bytes))
}

/// Whether `bytes` begins with the encoding of a string.
pub open spec fn str_decodes(bytes: Seq<u8>) -> bool {
    str_framed(bytes) && valid_utf8(str_body(bytes))
}

/// The class of the failure to read a string from `bytes`. The input ends
/// before the length or before the announced bytes; or the length is more
/// than the machine can address; or the announced bytes are no UTF-8.
pub open spec fn str_fault(bytes: Seq<u8>) -> CodecFault
    recommends
        !str_decodes(bytes),
{
    if bytes.len() < 8 {
        CodecFault::Io
    } else if le64_value(bytes) > usize::MAX {
        CodecFault::Custom
    } else if le64_value(bytes) > bytes.len() - 8 {
        CodecFault::Io
    } else {
        CodecFault::InvalidUtf8Encoding
    }
}

/// `bincode::serialize` on a `u8`: it succeeds, and gives the byte itself.
#[verifier::external_body]
pub(crate) fn encode_u8(v: u8) -> (r: Result<Vec<u8>, CodecFault>)
    ensures
        r is Ok,
        r matches Ok(bytes) ==> bytes@ == seq![v],
{
    match bincode::serialize(&v) {
        Ok(bytes) => Ok(bytes),
        Err(e) => Err(match *e {
            bincode::ErrorKind::Io(_) => CodecFault::Io,
            bincode::ErrorKind::InvalidUtf8Encoding(_) => CodecFault::InvalidUtf8Encoding,
            bincode::ErrorKind::InvalidBoolEncoding(_) => CodecFault::InvalidBoolEncoding,
            bincode::ErrorKind::InvalidCharEncoding => CodecFault::InvalidCharEncoding,
            bincode::ErrorKind::InvalidTagEncoding(_) => CodecFault::InvalidTagEncoding,
            bincode::ErrorKind::DeserializeAnyNotSupported => CodecFault::DeserializeAnyNotSupported,
            bincode::ErrorKind::SizeLimit => CodecFault::SizeLimit,
            bincode::ErrorKind::SequenceMustHaveLength => CodecFault::SequenceMustHaveLength,
            bincode::ErrorKind::Custom(_) => CodecFault::Custom,
        }),
    }
}

/// `bincode::serialize` on a `u32`: it succeeds, and gives its four bytes,
/// least significant first.
#[verifier::external_body]
pub(crate) fn encode_u32(v: u32) -> (r: Result<Vec<u8>, CodecFault>)
    ensures
        r is Ok,
        r matches Ok(bytes) ==> bytes@ == le32(v),
{
    match bincode::serialize(&v) {
        Ok(bytes) => Ok(bytes),
        Err(e) => Err(match *e {
            bincode::ErrorKind::Io(_) => CodecFault::Io,
            bincode::ErrorKind::InvalidUtf8Encoding(_) => CodecFault::InvalidUtf8Encoding,
            bincode::ErrorKind::InvalidBoolEncoding(_) => CodecFault::InvalidBoolEncoding,
            bincode::ErrorKind::InvalidCharEncoding => CodecFault::InvalidCharEncoding,
            bincode::ErrorKind::InvalidTagEncoding(_) => CodecFault::InvalidTagEncoding,
            bincode::ErrorKind::DeserializeAnyNotSupported => CodecFault::DeserializeAnyNotSupported,
            bincode::ErrorKind::SizeLimit => CodecFault::SizeLimit,
            bincode::ErrorKind::SequenceMustHaveLength => CodecFault::SequenceMustHaveLength,
            bincode::ErrorKind::Custom(_) => CodecFault::Custom,
        }),
    }
}

/// `bincode::serialize` on a `u64`: it succeeds, and gives its eight bytes,
/// least significant first.
#[verifier::external_body]
pub(crate) fn encode_u64(v: u64) -> (r: Result<Vec<u8>, CodecFault>)
    ensures
        r is Ok,
        r matches Ok(bytes) ==> bytes@ == le64(v),
{
    match bincode::serialize(&v) {
        Ok(bytes) => Ok(bytes),
        Err(e) => Err(match *e {
            bincode::ErrorKind::Io(_) => CodecFault::Io,
            bincode::ErrorKind::InvalidUtf8Encoding(_) => CodecFault::InvalidUtf8Encoding,
            bincode::ErrorKind::InvalidBoolEncoding(_) => CodecFault::InvalidBoolEncoding,
            bincode::ErrorKind::InvalidCharEncoding => CodecFault::InvalidCharEncoding,
            bincode::ErrorKind::InvalidTagEncoding(_) => CodecFault::InvalidTagEncoding,
            bincode::ErrorKind::DeserializeAnyNotSupported => CodecFault::DeserializeAnyNotSupported,
            bincode::ErrorKind::SizeLimit => CodecFault::SizeLimit,
            bincode::ErrorKind::SequenceMustHaveLength => CodecFault::SequenceMustHaveLength,
            bincode::ErrorKind::Custom(_) => CodecFault::Custom,
        }),
    }
}

/// `bincode::serialize` on a `str`: it succeeds, and gives the length of its
/// UTF-8 form as a 64-bit integer, then that form.
#[verifier::external_body]
pub(crate) fn encode_str(v: &str) -> (r: Result<Vec<u8>, CodecFault>)
    ensures
        r is Ok,
        r matches Ok(bytes) ==> bytes@ == str_wire(v@),
{
    match bincode::serialize(v) {
        Ok(bytes) => Ok(bytes),
        Err(e) => Err(match *e {
            bincode::ErrorKind::Io(_) => CodecFault::Io,
            bincode::ErrorKind::InvalidUtf8Encoding(_) => CodecFault::InvalidUtf8Encoding,
            bincode::ErrorKind::InvalidBoolEncoding(_) => CodecFault::InvalidBoolEncoding,
            bincode::ErrorKind::InvalidCharEncoding => CodecFault::InvalidCharEncoding,
            bincode::ErrorKind::InvalidTagEncoding(_) => CodecFault::InvalidTagEncoding,
            bincode::ErrorKind::DeserializeAnyNotSupported => CodecFault::DeserializeAnyNotSupported,
            bincode::ErrorKind::SizeLimit => CodecFault::SizeLimit,
            bincode::ErrorKind::SequenceMustHaveLength => CodecFault::SequenceMustHaveLength,
            bincode::ErrorKind::Custom(_) => CodecFault::Custom,
        }),
    }
}

/// `bincode::deserialize` to a `u8`: succeeds exactly when there is a byte,
/// and gives the first. It fails as a reader that ran out of input.
#[verifier::external_body]
pub(crate) fn decode_u8(bytes: &[u8]) -> (r: Result<u8, CodecFault>)
    ensures
        r is Ok <==> bytes@.len() >= 1,
        r matches Ok(v) ==> v == bytes@[0],
        r matches Err(fault) ==> fault == CodecFault::Io,
{
    match bincode::deserialize::<u8>(bytes) {
        Ok(v) => Ok(v),
        Err(e) => Err(match *e {
            bincode::ErrorKind::Io(_) => CodecFault::Io,
            bincode::ErrorKind::InvalidUtf8Encoding(_) => CodecFault::InvalidUtf8Encoding,
            bincode::ErrorKind::InvalidBoolEncoding(_) => CodecFault::InvalidBoolEncoding,
            bincode::ErrorKind::InvalidCharEncoding => CodecFault::InvalidCharEncoding,
            bincode::ErrorKind::InvalidTagEncoding(_) => CodecFault::InvalidTagEncoding,
            bincode::ErrorKind::DeserializeAnyNotSupported => CodecFault::DeserializeAnyNotSupported,
            bincode::ErrorKind::SizeLimit => CodecFault::SizeLimit,
            bincode::ErrorKind::SequenceMustHaveLength => CodecFault::SequenceMustHaveLength,
            bincode::ErrorKind::Custom(_) => CodecFault::Custom,
        }),
    }
}

/// `bincode::deserialize` to a `u32`: succeeds exactly when there are four
/// bytes, and reads the first four, least significant first. It fails as a
/// reader that ran out of input.
#[verifier::external_body]
pub(crate) fn decode_u32(bytes: &[u8]) -> (r: Result<u32, CodecFault>)
    ensures
        r is Ok <==> bytes@.len() >= 4,
        r matches Ok(v) ==> v == le32_value(bytes@),
        r matches Err(fault) ==> fault == CodecFault::Io,
{
    match bincode::deserialize::<u32>(bytes) {
        Ok(v) => Ok(v),
        Err(e) => Err(match *e {
            bincode::ErrorKind::Io(_) => CodecFault::Io,
            bincode::ErrorKind::InvalidUtf8Encoding(_) => CodecFault::InvalidUtf8Encoding,
            bincode::ErrorKind::InvalidBoolEncoding(_) => CodecFault::InvalidBoolEncoding,
            bincode::ErrorKind::InvalidCharEncoding => CodecFault::InvalidCharEncoding,
            bincode::ErrorKind::InvalidTagEncoding(_) => CodecFault::InvalidTagEncoding,
            bincode::ErrorKind::DeserializeAnyNotSupported => CodecFault::DeserializeAnyNotSupported,
            bincode::ErrorKind::SizeLimit => CodecFault::SizeLimit,
            bincode::ErrorKind::SequenceMustHaveLength => CodecFault::SequenceMustHaveLength,
            bincode::ErrorKind::Custom(_) => CodecFault::Custom,
        }),
    }
}

/// `bincode::deserialize` to a `u64`: succeeds exactly when there are eight
/// bytes, and reads the first eight, least significant first. It fails as a
/// reader that ran out of input.
#[verifier::external_body]
pub(crate) fn decode_u64(bytes: &[u8]) -> (r: Result<u64, CodecFault>)
    ensures
        r is Ok <==> bytes@.len() >= 8,
        r matches Ok(v) ==> v == le64_value(bytes@),
        r matches Err(fault) ==> fault == CodecFault::Io,
{
    match bincode::deserialize::<u64>(bytes) {
        Ok(v) => Ok(v),
        Err(e) => Err(match *e {
            bincode::ErrorKind::Io(_) => CodecFault::Io,
            bincode::ErrorKind::InvalidUtf8Encoding(_) => CodecFault::InvalidUtf8Encoding,
            bincode::ErrorKind::InvalidBoolEncoding(_) => CodecFault::InvalidBoolEncoding,
            bincode::ErrorKind::InvalidCharEncoding => CodecFault::InvalidCharEncoding,
            bincode::ErrorKind::InvalidTagEncoding(_) => CodecFault::InvalidTagEncoding,
            bincode::ErrorKind::DeserializeAnyNotSupported => CodecFault::DeserializeAnyNotSupported,
            bincode::ErrorKind::SizeLimit => CodecFault::SizeLimit,
            bincode::ErrorKind::SequenceMustHaveLength => CodecFault::SequenceMustHaveLength,
            bincode::ErrorKind::Custom(_) => CodecFault::Custom,
        }),
    }
}

/// `bincode::deserialize` to a `String`: succeeds exactly when the input
/// begins with a length, at least that many bytes follow it, and those bytes
/// are valid UTF-8; it gives the string they spell. It fails with the class
/// of the first of these that does not hold.
#[verifier::external_body]
pub(crate) fn decode_string(bytes: &[u8]) -> (r: Result<String, CodecFault>)
    ensures
        r is Ok <==> str_decodes(bytes@),
        r matches Ok(v) ==> v@ == decode_utf8(str_body(bytes@)),
        r matches Err(fault) ==> fault == str_fault(bytes@),
{
    match bincode::deserialize::<String>(bytes) {
        Ok(v) => Ok(v),
        Err(e) => Err(match *e {
            bincode::ErrorKind::Io(_) => CodecFault::Io,
            bincode::ErrorKind::InvalidUtf8Encoding(_) => CodecFault::InvalidUtf8Encoding,
            bincode::ErrorKind::InvalidBoolEncoding(_) => CodecFault::InvalidBoolEncoding,
            bincode::ErrorKind::InvalidCharEncoding => CodecFault::InvalidCharEncoding,
            bincode::ErrorKind::InvalidTagEncoding(_) => CodecFault::InvalidTagEncoding,
            bincode::ErrorKind::DeserializeAnyNotSupported => CodecFault::DeserializeAnyNotSupported,
            bincode::ErrorKind::SizeLimit => CodecFault::SizeLimit,
            bincode::ErrorKind::SequenceMustHaveLength => CodecFault::SequenceMustHaveLength,
            bincode::ErrorKind::Custom(_) => CodecFault::Custom,
        }),
    }
}

/// A string read back from its encoding is the string, whatever follows the
/// encoding.
pub proof fn lemma_str_wire_decodes(s: Seq<char>, rest: Seq<u8>)
    requires
        encode_utf8(s).len() <= u64::MAX,
    ensures
        str_decodes(str_wire(s) + rest),
        decode_utf8(str_body(str_wire(s) + rest)) == s,
{
    let body = encode_utf8(s);
    let n = body.len() as u64;
    crate::endian::lemma_le64_value(n, body + rest);
    assert(str_wire(s) + rest =~= le64(n) + (body + rest));
    assert(str_body(str_wire(s) + rest) =~= body);
    vstd::utf8::encode_utf8_valid_utf8(s);
    vstd::utf8::encode_utf8_decode_utf8(s);
}

} // verus!
