//! How an [`Error`] is written into a reply and read back from one.
//!
//! An error travels as the index of its variant, a 32-bit integer, followed by
//! the variant's fields in order.

use crate::codec::{
    decode_string, decode_u32, decode_u64, decode_u8, encode_str, encode_u32, encode_u64,
    encode_u8, lemma_str_wire_decodes, str_body, str_decodes, str_fault, str_wire,
};
use crate::endian::{le32, le32_value, le64, le64_value, lemma_le32_value, lemma_le64_value};
use crate::error::{CodecFault, Error, ErrorView};
use vstd::prelude::*;
use vstd::slice::slice_subrange;
use vstd::utf8::{decode_utf8, encode_utf8};

verus! {

/// The number of variants of [`Error`].
pub const VARIANTS: u32 = 16;

impl ErrorView {
    /// The index of the variant.
    pub open spec fn tag(self) -> u32 {
        match self {
            ErrorView::Absent => 0,
            ErrorView::WrongNoArgs => 1,
            ErrorView::NoCmd => 2,
            ErrorView::ServiceError(_) => 3,
            ErrorView::ServiceErrorX(_, _) => 4,
            ErrorView::Other => 5,
            ErrorView::Failure(_) => 6,
            ErrorView::Io(_) => 7,
            ErrorView::Infallible => 8,
            ErrorView::Bincode(_) => 9,
            ErrorView::PoisonedMutex => 10,
            ErrorView::PoisonedRwLock => 11,
            ErrorView::Uart(_) => 12,
            ErrorView::NixError(_) => 13,
            ErrorView::Syslog(_) => 14,
            ErrorView::Diesel(_) => 15,
        }
    }

    /// The encoded fields of the variant.
    pub open spec fn fields(self) -> Seq<u8> {
        match self {
            ErrorView::ServiceError(c) => seq![c],
            ErrorView::ServiceErrorX(c, bits) => seq![c] + le64(bits),
            ErrorView::Failure(msg) => str_wire(msg),
            ErrorView::Io(c) => seq![c],
            ErrorView::Bincode(c) => seq![c],
            ErrorView::Uart(c) => seq![c],
            ErrorView::NixError(c) => seq![c],
            ErrorView::Syslog(c) => seq![c],
            ErrorView::Diesel(c) => seq![c],
            _ => Seq::empty(),
        }
    }

    /// The encoded error: the variant's index, then its fields.
    pub open spec fn wire(self) -> Seq<u8> {
        le32(self.tag()) + self.fields()
    }

    /// Whether the length of the message, in bytes, can be written down.
    pub open spec fn fits(self) -> bool {
        self matches ErrorView::Failure(msg) ==> encode_utf8(msg).len() <= u64::MAX
    }

    /// Whether `bytes` begins with an encoded error.
    pub open spec fn decodes(bytes: Seq<u8>) -> bool {
        bytes.len() >= 4 && {
            let tag = le32_value(bytes);
            let rest = bytes.skip(4);
            if tag == 3 || tag == 7 || tag == 9 || (12 <= tag <= 15) {
                rest.len() >= 1
            } else if tag == 4 {
                rest.len() >= 9
            } else if tag == 6 {
                str_decodes(rest)
            } else {
                tag < VARIANTS
            }
        }
    }

    /// The error that `bytes` begins with.
    pub open spec fn decoded(bytes: Seq<u8>) -> ErrorView
        recommends
            ErrorView::decodes(bytes),
    {
        let tag = le32_value(bytes);
        let rest = bytes.skip(4);
        if tag == 0 {
            ErrorView::Absent
        } else if tag == 1 {
            ErrorView::WrongNoArgs
        } else if tag == 2 {
            ErrorView::NoCmd
        } else if tag == 3 {
            ErrorView::ServiceError(rest[0])
        } else if tag == 4 {
            ErrorView::ServiceErrorX(rest[0], le64_value(rest.skip(1)))
        } else if tag == 5 {
            ErrorView::Other
        } else if tag == 6 {
            ErrorView::Failure(decode_utf8(str_body(rest)))
        } else if tag == 7 {
            ErrorView::Io(rest[0])
        } else if tag == 8 {
            ErrorView::Infallible
        } else if tag == 9 {
            ErrorView::Bincode(rest[0])
        } else if tag == 10 {
            ErrorView::PoisonedMutex
        } else if tag == 11 {
            ErrorView::PoisonedRwLock
        } else if tag == 12 {
            ErrorView::Uart(rest[0])
        } else if tag == 13 {
            ErrorView::NixError(rest[0])
        } else if tag == 14 {
            ErrorView::Syslog(rest[0])
        } else {
            ErrorView::Diesel(rest[0])
        }
    }

    /// The class of the failure to read an error from `bytes`: the input ends
    /// too early, the index names no variant, or the message cannot be read.
    pub open spec fn fault(bytes: Seq<u8>) -> CodecFault
        recommends
            !ErrorView::decodes(bytes),
    {
        if bytes.len() < 4 {
            CodecFault::Io
        } else if le32_value(bytes) >= VARIANTS {
            CodecFault::Custom
        } else if le32_value(bytes) == 6 {
            str_fault(bytes.skip(4))
        } else {
            CodecFault::Io
        }
    }

    /// An encoded error is read back as the error it was, whatever follows
    /// it.
    pub proof fn lemma_wire_decodes(self, rest: Seq<u8>)
        requires
            self.fits(),
        ensures
            ErrorView::decodes(self.wire() + rest),
            ErrorView::decoded(self.wire() + rest) == self,
    {
        let bytes = self.wire() + rest;
        lemma_le32_value(self.tag(), self.fields() + rest);
        assert(bytes =~= le32(self.tag()) + (self.fields() + rest));
        assert(bytes.skip(4) =~= self.fields() + rest);
        match self {
            ErrorView::ServiceErrorX(c, bits) => {
                lemma_le64_value(bits, rest);
                assert(bytes.skip(4).skip(1) =~= le64(bits) + rest);
            },
            ErrorView::Failure(msg) => {
                lemma_str_wire_decodes(msg, rest);
            },
            _ => {},
        }
    }
}

impl Error {
    /// The index of the variant.
    fn tag(&self) -> (r: u32)
        ensures
            r == self@.tag(),
    {
        match self {
            Error::Absent => 0,
            Error::WrongNoArgs => 1,
            Error::NoCmd => 2,
            Error::ServiceError(_) => 3,
            Error::ServiceErrorX(_, _) => 4,
            Error::Other => 5,
            Error::Failure(_) => 6,
            Error::Io(_) => 7,
            Error::Infallible => 8,
            Error::Bincode(_) => 9,
            Error::PoisonedMutex => 10,
            Error::PoisonedRwLock => 11,
            Error::Uart(_) => 12,
            Error::NixError(_) => 13,
            Error::Syslog(_) => 14,
            Error::Diesel(_) => 15,
        }
    }

    /// The generic failure with the name `name`.
    pub fn failure(name: &str) -> (r: Error)
        ensures
            r@ == ErrorView::Failure(name@),
    {
        Error::Failure(name.to_owned())
    }

    /// Encodes the error with the binary codec: the index of its variant,
    /// then its fields. Every error can be encoded.
    pub fn encode(&self) -> (r: Result<Vec<u8>, CodecFault>)
        ensures
            r matches Ok(bytes) && bytes@ == self@.wire(),
    {
        let mut out = match encode_u32(self.tag()) {
            Ok(bytes) => bytes,
            Err(e) => {
                return Err(e);
            },
        };
        match self {
            Error::ServiceError(c)
            | Error::Io(c)
            | Error::Bincode(c)
            | Error::Uart(c)
            | Error::NixError(c)
            | Error::Syslog(c)
            | Error::Diesel(c) => {
                let mut field = match encode_u8(*c) {
                    Ok(bytes) => bytes,
                    Err(e) => {
                        return Err(e);
                    },
                };
                out.append(&mut field);
            },
            Error::ServiceErrorX(c, bits) => {
                let mut first = match encode_u8(*c) {
                    Ok(bytes) => bytes,
                    Err(e) => {
                        return Err(e);
                    },
                };
                let mut second = match encode_u64(*bits) {
                    Ok(bytes) => bytes,
                    Err(e) => {
                        return Err(e);
                    },
                };
                out.append(&mut first);
                out.append(&mut second);
                assert(out@ =~= self@.wire());
            },
            Error::Failure(msg) => {
                let mut field = match encode_str(msg.as_str()) {
                    Ok(bytes) => bytes,
                    Err(e) => {
                        return Err(e);
                    },
                };
                out.append(&mut field);
            },
            _ => {
                assert(out@ =~= self@.wire());
            },
        }
        Ok(out)
    }

    /// Decodes the error that `bytes` begins with. What follows it is
    /// ignored. When no error can be read, the class of the codec's failure
    /// is returned; an index that names no variant gives
    /// [`CodecFault::Custom`].
    pub fn decode(bytes: &[u8]) -> (r: Result<Error, CodecFault>)
        ensures
            r is Ok <==> ErrorView::decodes(bytes@),
            r matches Ok(e) ==> e@ == ErrorView::decoded(bytes@),
            r matches Err(fault) ==> fault == ErrorView::fault(bytes@),
    {
        let tag = match decode_u32(bytes) {
            Ok(tag) => tag,
            Err(e) => {
                return Err(e);
            },
        };
        let rest = slice_subrange(bytes, 4, bytes.len());
        assert(rest@ == bytes@.skip(4));
        if tag == 3 || tag == 7 || tag == 9 || (12 <= tag && tag <= 15) {
            let c = match decode_u8(rest) {
                Ok(c) => c,
                Err(e) => {
                    return Err(e);
                },
            };
            if tag == 3 {
                Ok(Error::ServiceError(c))
            } else if tag == 7 {
                Ok(Error::Io(c))
            } else if tag == 9 {
                Ok(Error::Bincode(c))
            } else if tag == 12 {
                Ok(Error::Uart(c))
            } else if tag == 13 {
                Ok(Error::NixError(c))
            } else if tag == 14 {
                Ok(Error::Syslog(c))
            } else {
                Ok(Error::Diesel(c))
            }
        } else if tag == 4 {
            let c = match decode_u8(rest) {
                Ok(c) => c,
                Err(e) => {
                    return Err(e);
                },
            };
            let tail = slice_subrange(rest, 1, rest.len());
            assert(tail@ == rest@.skip(1));
            let bits = match decode_u64(tail) {
                Ok(bits) => bits,
                Err(e) => {
                    return Err(e);
                },
            };
            Ok(Error::ServiceErrorX(c, bits))
        } else if tag == 6 {
            match decode_string(rest) {
                Ok(msg) => Ok(Error::Failure(msg)),
                Err(e) => Err(e),
            }
        } else if tag == 0 {
            Ok(Error::Absent)
        } else if tag == 1 {
            Ok(Error::WrongNoArgs)
        } else if tag == 2 {
            Ok(Error::NoCmd)
        } else if tag == 5 {
            Ok(Error::Other)
        } else if tag == 8 {
            Ok(Error::Infallible)
        } else if tag == 10 {
            Ok(Error::PoisonedMutex)
        } else if tag == 11 {
            Ok(Error::PoisonedRwLock)
        } else {
            Err(CodecFault::Custom)
        }
    }
}

} // verus!
