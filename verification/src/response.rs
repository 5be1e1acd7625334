//! The reply of an operation that returns nothing.

use crate::codec::{decode_u8, encode_u8};
use crate::error::CodecFault;
use vstd::prelude::*;
use vstd::std_specs::convert::FromSpecImpl;

verus! {

/// The byte that stands for success. It is none of the small numbers under
/// which the variants of an error travel.
pub const SUCCESS: u8 = 0xFF;

/// The outcome of an operation without output.
#[derive(Clone, Copy, Debug, PartialEq, Eq)]
pub enum Resp {
    Success,
}

impl Resp {
    /// The byte under which the outcome travels.
    pub fn code(self) -> (r: u8)
        ensures
            r == SUCCESS,
    {
        SUCCESS
    }

    /// The outcome that travels under `code`, if there is one.
    pub fn from_code(code: u8) -> (r: Option<Resp>)
        ensures
            r == if code == SUCCESS {
                Some(Resp::Success)
            } else {
                Option::<Resp>::None
            },
    {
        if code == SUCCESS {
            Some(Resp::Success)
        } else {
            None
        }
    }
}

/// The reply of an operation without output.
#[derive(Clone, Copy, Debug, PartialEq, Eq)]
pub struct GenericResponse {
    pub success: Resp,
}

impl GenericResponse {
    /// The reply that reports success.
    pub fn new() -> (r: GenericResponse)
        ensures
            r == (GenericResponse { success: Resp::Success }),
    {
        GenericResponse { success: Resp::Success }
    }

    /// Encodes the reply with the binary codec: the one byte of its outcome.
    /// The reply can always be encoded.
    pub fn encode(&self) -> (r: Result<Vec<u8>, CodecFault>)
        ensures
            r matches Ok(bytes) && bytes@ == seq![SUCCESS],
    {
        encode_u8(self.success.code())
    }

    /// Decodes the reply that `bytes` begins with. Succeeds exactly when the
    /// first byte stands for success. Any other first byte gives
    /// [`CodecFault::Custom`], and no byte at all [`CodecFault::Io`].
    pub fn decode(bytes: &[u8]) -> (r: Result<GenericResponse, CodecFault>)
        ensures
            r is Ok <==> bytes@.len() >= 1 && bytes@[0] == SUCCESS,
            r matches Err(fault) ==> fault == if bytes@.len() >= 1 {
                CodecFault::Custom
            } else {
                CodecFault::Io
            },
    {
        let code = match decode_u8(bytes) {
            Ok(code) => code,
            Err(e) => {
                return Err(e);
            },
        };
        match Resp::from_code(code) {
            Some(success) => Ok(GenericResponse { success }),
            None => Err(CodecFault::Custom),
        }
    }
}

impl From<()> for GenericResponse {
    fn from(_r: ()) -> (r: GenericResponse) {
        GenericResponse { success: Resp::Success }
    }
}

impl FromSpecImpl<()> for GenericResponse {
    open spec fn obeys_from_spec() -> bool {
        true
    }

    open spec fn from_spec(_r: ()) -> GenericResponse {
        GenericResponse { success: Resp::Success }
    }
}

} // verus!
