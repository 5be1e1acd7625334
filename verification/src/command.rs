//! The wire envelope: an identifier and a payload.
//!
//! On the wire a command is the two bytes of its identifier, most significant
//! first, followed by the encoded payload. A reply whose identifier is one of
//! the two reserved values carries an encoded [`Error`] instead. Under the
//! second of them a reply may also carry one byte alone: the class of the
//! codec failure that kept the service from encoding its error.

use crate::endian::{be16, be16_value, from_be16, lemma_be16_value, to_be16};
use crate::error::{CodecFault, Error, ErrorView};
use crate::registry::{is_sentinel, CommandID, Registry, SENTINEL_ERROR, SENTINEL_UNENCODABLE};
use vstd::prelude::*;
use vstd::slice::{slice_subrange, slice_to_vec};

verus! {

/// The envelope of one request or reply. The identifier says how the payload
/// is to be read; `data` holds the payload as the binary codec encoded it.
#[derive(Clone, Debug, PartialEq, Eq)]
pub struct Command {
    pub id: CommandID,
    pub data: Vec<u8>,
}

/// The envelope on the wire: the identifier, then the payload.
pub open spec fn frame(code: u16, payload: Seq<u8>) -> Seq<u8> {
    be16(code) + payload
}

/// What a datagram holds.
pub ghost enum Parsed {
    /// An operation and its encoded payload.
    Command(CommandID, Seq<u8>),
    /// A failure: the error that a reply carries; [`Error::NoCmd`] where the
    /// identifier is missing or not assigned; the codec fault of reading a
    /// reply that carries no error.
    Failure(ErrorView),
}

/// The largest sub-code of a class of codec failure.
pub const MAX_FAULT: u8 = 8;

/// Whether a reply with the identifier `code` and the payload `rest` carries
/// the class of a codec failure and nothing else.
pub open spec fn carries_fault(code: u16, rest: Seq<u8>) -> bool {
    code == SENTINEL_UNENCODABLE && rest.len() == 1 && rest[0] <= MAX_FAULT
}

/// What the datagram `msg` holds for a party that uses `registry`.
pub open spec fn parsed(registry: &Registry, msg: Seq<u8>) -> Parsed {
    if msg.len() < 2 {
        Parsed::Failure(ErrorView::NoCmd)
    } else {
        let code = be16_value(msg[0], msg[1]);
        let rest = msg.skip(2);
        if carries_fault(code, rest) {
            Parsed::Failure(ErrorView::Bincode(rest[0]))
        } else if is_sentinel(code) {
            if ErrorView::decodes(rest) {
                Parsed::Failure(ErrorView::decoded(rest))
            } else {
                Parsed::Failure(ErrorView::Bincode(ErrorView::fault(rest).code()))
            }
        } else if registry.assigns(code) {
            Parsed::Command(registry.command(code), rest)
        } else {
            Parsed::Failure(ErrorView::NoCmd)
        }
    }
}

impl Command {
    /// Frames the operation `id` with its payload, given as the binary codec
    /// returned it. Fails with [`Error::NoCmd`] when the registry does not
    /// hold `id`, and else with the codec fault of the class that kept the
    /// payload from being encoded.
    pub fn serialize(
        registry: &Registry,
        id: CommandID,
        payload: Result<Vec<u8>, CodecFault>,
    ) -> (r: Result<Vec<u8>, Error>)
        ensures
            !registry.declares(id) ==> r == Err::<Vec<u8>, Error>(Error::NoCmd),
            registry.declares(id) ==> match payload {
                Ok(data) => r matches Ok(bytes) && bytes@ == frame(registry.code(id), data@),
                Err(fault) => r == Err::<Vec<u8>, Error>(Error::Bincode(fault.code())),
            },
    {
        let code = match registry.try_into_code(id) {
            Ok(code) => code,
            Err(e) => {
                return Err(e);
            },
        };
        match payload {
            Ok(mut data) => {
                let mut out = to_be16(code);
                out.append(&mut data);
                Ok(out)
            },
            Err(fault) => Err(Error::from(fault)),
        }
    }

    /// Reads a datagram. A datagram of fewer than two bytes, or with an
    /// identifier that is not assigned, fails with [`Error::NoCmd`]. After a
    /// reserved identifier the rest is decoded as an error, which is returned
    /// as the failure. Where it is no encoded error, the failure is the codec
    /// fault of reading it; where the reply is the one byte that says why an
    /// error could not be encoded, it is the codec fault of that class.
    pub fn parse(registry: &Registry, msg: &[u8]) -> (r: Result<Command, Error>)
        ensures
            match parsed(registry, msg@) {
                Parsed::Command(id, data) => r matches Ok(c) && c.id == id && c.data@ == data,
                Parsed::Failure(v) => r matches Err(e) && e@ == v,
            },
    {
        if msg.len() < 2 {
            return Err(Error::NoCmd);
        }
        let code = from_be16(msg[0], msg[1]);
        let rest = slice_subrange(msg, 2, msg.len());
        assert(rest@ == msg@.skip(2));
        if code == SENTINEL_UNENCODABLE && rest.len() == 1 && rest[0] <= MAX_FAULT {
            return Err(Error::Bincode(rest[0]));
        }
        if code == SENTINEL_ERROR || code == SENTINEL_UNENCODABLE {
            return match Error::decode(rest) {
                Ok(e) => Err(e),
                Err(fault) => Err(Error::from(fault)),
            };
        }
        match registry.try_from_code(code) {
            Ok(id) => Ok(Command { id, data: slice_to_vec(rest) }),
            Err(e) => Err(e),
        }
    }

    /// The payload of a command as a value, given what the binary codec made
    /// of [`Command::data`]: the value, or the codec fault of the class
    /// that kept the codec from reading one.
    pub fn decoded<T>(payload: Result<T, CodecFault>) -> (r: Result<T, Error>)
        ensures
            r == match payload {
                Ok(value) => Ok::<T, Error>(value),
                Err(fault) => Err::<T, Error>(Error::Bincode(fault.code())),
            },
    {
        match payload {
            Ok(value) => Ok(value),
            Err(fault) => Err(Error::from(fault)),
        }
    }

    /// Every operation of the registry, framed with any payload, is read back
    /// as that operation with that payload.
    pub proof fn lemma_round_trip(registry: &Registry, id: CommandID, payload: Seq<u8>)
        requires
            registry.wf(),
            registry.declares(id),
        ensures
            parsed(registry, frame(registry.code(id), payload)) == Parsed::Command(id, payload),
    {
        let code = registry.code(id);
        lemma_be16_value(code);
        assert(frame(code, payload).skip(2) =~= payload);
    }

    /// A datagram whose identifier is neither reserved nor assigned is
    /// refused with [`Error::NoCmd`].
    pub proof fn lemma_unknown_identifier(registry: &Registry, msg: Seq<u8>)
        requires
            msg.len() >= 2,
            !is_sentinel(be16_value(msg[0], msg[1])),
            !registry.assigns(be16_value(msg[0], msg[1])),
        ensures
            parsed(registry, msg) == Parsed::Failure(ErrorView::NoCmd),
    {
    }

    /// A datagram too short to hold an identifier is refused with
    /// [`Error::NoCmd`].
    pub proof fn lemma_truncated(registry: &Registry, msg: Seq<u8>)
        requires
            msg.len() < 2,
        ensures
            parsed(registry, msg) == Parsed::Failure(ErrorView::NoCmd),
    {
    }
}

} // verus!
