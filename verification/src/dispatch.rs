//! The server side: from a datagram to the reply.
//!
//! A datagram is decoded and routed by [`Dispatcher::receive`]. Where that
//! names an operation, the host runs the operation's handler and hands the
//! outcome to [`Dispatcher::complete`], which encodes the reply. Every failure
//! on the way becomes a reply under a reserved identifier.

use crate::command::{frame, parsed, Command, Parsed};
use crate::endian::{be16, be16_value, from_be16, lemma_be16_value, to_be16};
use crate::error::{from_bincode_error, CodecFault, Error, ErrorView};
use crate::last::{Diagnostics, Last};
use crate::registry::{CommandID, Registry, SENTINEL_ERROR, SENTINEL_UNENCODABLE};
use vstd::prelude::*;
use vstd::slice::{slice_subrange, slice_to_vec};

verus! {

/// The reply that carries the error `v`.
pub open spec fn error_frame(v: ErrorView) -> Seq<u8> {
    frame(SENTINEL_ERROR, v.wire())
}

/// The reply that says that an error could not be encoded, and why.
pub open spec fn unencodable_frame(fault: CodecFault) -> Seq<u8> {
    frame(SENTINEL_UNENCODABLE, seq![fault.code()])
}

/// Frames the outcome of encoding an error: the encoded error under the first
/// reserved identifier, or the sub-code of the codec's failure under the
/// second.
pub fn error_reply(encoded: Result<Vec<u8>, CodecFault>) -> (r: Vec<u8>)
    ensures
        match encoded {
            Ok(bytes) => r@ == frame(SENTINEL_ERROR, bytes@),
            Err(fault) => r@ == unencodable_frame(fault),
        },
{
    match encoded {
        Ok(mut bytes) => {
            let mut buf = to_be16(SENTINEL_ERROR);
            buf.append(&mut bytes);
            buf
        },
        Err(fault) => {
            let mut buf = to_be16(SENTINEL_UNENCODABLE);
            buf.push(from_bincode_error(fault));
            assert(buf@ =~= unencodable_frame(fault));
            buf
        },
    }
}

/// The reply to a request that failed with `err`: the first reserved
/// identifier, then the encoded error.
pub fn handle_err(err: &Error) -> (r: Vec<u8>)
    ensures
        r@ == error_frame(err@),
{
    error_reply(err.encode())
}

/// The operation and the encoded arguments that the request `msg` names, or
/// [`ErrorView::NoCmd`] where its identifier is missing or not assigned.
pub open spec fn routed(registry: &Registry, msg: Seq<u8>) -> Result<(CommandID, Seq<u8>), ErrorView> {
    if msg.len() >= 2 && registry.assigns(be16_value(msg[0], msg[1])) {
        Ok((registry.command(be16_value(msg[0], msg[1])), msg.skip(2)))
    } else {
        Err(ErrorView::NoCmd)
    }
}

/// What the host does next with a datagram.
#[derive(Debug, PartialEq, Eq)]
pub enum Action {
    /// Run the handler of `id` on the encoded arguments.
    Execute { id: CommandID, args: Vec<u8> },
    /// Send these bytes back to the sender.
    Reply(Vec<u8>),
}

/// The decisions of a service between receiving a datagram and replying.
pub struct Dispatcher {
    pub registry: Registry,
    pub log: Diagnostics,
}

impl Dispatcher {
    /// A dispatcher for the operations of `registry`, with an empty log.
    pub fn new(registry: Registry) -> (r: Dispatcher)
        ensures
            r.registry == registry,
            r.log.last_cmd() == Seq::<u8>::empty(),
            r.log.last_err() == ErrorView::Absent,
    {
        Dispatcher { registry, log: Diagnostics::new() }
    }

    /// Decodes and routes one datagram. A request for an operation of the
    /// registry is recorded as the last request and handed out for execution.
    /// Any other datagram is answered with [`Error::NoCmd`], which is recorded
    /// as the last error.
    pub fn receive(&mut self, msg: &[u8]) -> (r: Action)
        ensures
            final(self).registry == old(self).registry,
            match routed(&old(self).registry, msg@) {
                Ok((id, args)) => {
                    &&& r matches Action::Execute { id: i, args: a }
                    &&& i == id
                    &&& a@ == args
                    &&& final(self).log.last_cmd() == msg@
                    &&& final(self).log.last_err() == old(self).log.last_err()
                },
                Err(v) => {
                    &&& r matches Action::Reply(bytes)
                    &&& bytes@ == error_frame(v)
                    &&& final(self).log.last_err() == v
                    &&& final(self).log.last_cmd() == old(self).log.last_cmd()
                },
            },
    {
        if msg.len() >= 2 {
            let code = from_be16(msg[0], msg[1]);
            match self.registry.try_from_code(code) {
                Ok(id) => {
                    let args = slice_subrange(msg, 2, msg.len());
                    assert(args@ == msg@.skip(2));
                    self.log.set_last_cmd(slice_to_vec(msg));
                    return Action::Execute { id, args: slice_to_vec(args) };
                },
                Err(_) => {},
            }
        }
        let reply = handle_err(&Error::NoCmd);
        self.log.set_last_err(Error::NoCmd);
        Action::Reply(reply)
    }

    /// The error that a request for `id` ends with, given what its handler
    /// returned; `None` where it ends with a result.
    pub open spec fn failure(
        registry: &Registry,
        id: CommandID,
        outcome: Result<Result<Vec<u8>, CodecFault>, Error>,
    ) -> Option<ErrorView> {
        match outcome {
            Err(e) => Some(e@),
            Ok(_) if !registry.declares(id) => Some(ErrorView::NoCmd),
            Ok(Err(fault)) => Some(ErrorView::Bincode(fault.code())),
            Ok(Ok(_)) => None,
        }
    }

    /// Encodes the reply to the request for `id`, given what its handler
    /// returned: the result as the binary codec encoded it, or an error. A
    /// result is framed under the identifier of `id`. An error, a result that
    /// the codec could not encode and an operation that the registry does not
    /// hold are answered with the encoded error under the first reserved
    /// identifier, and recorded as the last error.
    pub fn complete(
        &mut self,
        id: CommandID,
        outcome: Result<Result<Vec<u8>, CodecFault>, Error>,
    ) -> (r: Vec<u8>)
        ensures
            final(self).registry == old(self).registry,
            final(self).log.last_cmd() == old(self).log.last_cmd(),
            match Dispatcher::failure(&old(self).registry, id, outcome) {
                Some(v) => r@ == error_frame(v) && final(self).log.last_err() == v,
                None => {
                    &&& outcome matches Ok(Ok(data))
                    &&& r@ == frame(old(self).registry.code(id), data@)
                    &&& final(self).log.last_err() == old(self).log.last_err()
                },
            },
    {
        let failure = match outcome {
            Ok(encoded) => match Command::serialize(&self.registry, id, encoded) {
                Ok(bytes) => {
                    return bytes;
                },
                Err(e) => e,
            },
            Err(e) => e,
        };
        let reply = handle_err(&failure);
        self.log.set_last_err(failure);
        reply
    }

    /// A request for an operation of the registry is routed to that
    /// operation, with the arguments it was framed with.
    pub proof fn lemma_request_is_routed(registry: &Registry, id: CommandID, args: Seq<u8>)
        requires
            registry.wf(),
            registry.declares(id),
        ensures
            routed(registry, frame(registry.code(id), args)) == Ok::<
                (CommandID, Seq<u8>),
                ErrorView,
            >((id, args)),
    {
        lemma_be16_value(registry.code(id));
        assert(frame(registry.code(id), args).skip(2) =~= args);
    }

    /// The reply to a request that ended with a result begins with the
    /// identifier of its operation, which is no reserved identifier and
    /// belongs to no other operation; the caller reads the reply as that
    /// operation with that result.
    pub proof fn lemma_result_reply(registry: &Registry, id: CommandID, result: Seq<u8>)
        requires
            registry.wf(),
            registry.declares(id),
        ensures
            frame(registry.code(id), result).subrange(0, 2) == be16(registry.code(id)),
            1 <= registry.code(id) <= registry@.len(),
            registry.code(id) != SENTINEL_ERROR && registry.code(id) != SENTINEL_UNENCODABLE,
            forall|other: CommandID|
                registry.declares(other) && other != id ==> registry.code(other)
                    != registry.code(id),
            parsed(registry, frame(registry.code(id), result)) == Parsed::Command(id, result),
    {
        Command::lemma_round_trip(registry, id, result);
        assert(frame(registry.code(id), result).subrange(0, 2) =~= be16(registry.code(id)));
    }

    /// A reply that carries an encoded error is read by the caller as that
    /// error, as a failure.
    pub proof fn lemma_error_symmetry(registry: &Registry, v: ErrorView)
        requires
            v.fits(),
        ensures
            parsed(registry, error_frame(v)) == Parsed::Failure(v),
    {
        lemma_be16_value(SENTINEL_ERROR);
        assert(error_frame(v).skip(2) =~= v.wire());
        assert(v.wire() =~= v.wire() + Seq::<u8>::empty());
        v.lemma_wire_decodes(Seq::empty());
    }

    /// A reply that says that an error could not be encoded is read by the
    /// caller as the codec fault of the class it names.
    pub proof fn lemma_unencodable_symmetry(registry: &Registry, fault: CodecFault)
        ensures
            parsed(registry, unencodable_frame(fault)) == Parsed::Failure(
                ErrorView::Bincode(fault.code()),
            ),
    {
        lemma_be16_value(SENTINEL_UNENCODABLE);
        assert(unencodable_frame(fault).skip(2) =~= seq![fault.code()]);
    }

    /// A reply under a reserved identifier is never read as a command.
    pub proof fn lemma_reply_is_failure(
        registry: &Registry,
        bytes: Seq<u8>,
        v: ErrorView,
        fault: CodecFault,
    )
        requires
            bytes == error_frame(v) || bytes == unencodable_frame(fault),
        ensures
            parsed(registry, bytes) is Failure,
    {
        lemma_be16_value(SENTINEL_ERROR);
        lemma_be16_value(SENTINEL_UNENCODABLE);
    }
}

} // verus!
