//! The client side: the request that goes out and what the reply means.
//!
//! A call is one request and at most one reply. The host sends the bytes of
//! [`request`], waits for a datagram, and hands what came of the exchange to
//! [`response`]. Nothing is sent twice.

use crate::command::{parsed, Command, Parsed};
use crate::error::{CodecFault, Error, ErrorView, IoKind};
use crate::registry::{CommandID, Registry};
use vstd::prelude::*;

verus! {

/// How long the host waits for a reply.
#[derive(Clone, Copy, Debug, PartialEq, Eq)]
pub enum Wait {
    /// Until a reply arrives.
    Forever,
    /// This many seconds, and no longer.
    Seconds(u64),
}

/// How an exchange with the remote endpoint ended.
#[derive(Debug)]
pub enum Exchange {
    /// A datagram came back.
    Reply(Vec<u8>),
    /// The wait ended before a datagram came back.
    TimedOut,
    /// The transport failed.
    Failed(IoKind),
}

/// How an exchange ended that the transport failed with the class `kind`.
/// Where the wait had a limit, a receive that would block and one that timed
/// out are the limit running out; every other failure is the transport's.
pub fn ended(kind: IoKind, limited: bool) -> (r: Exchange)
    ensures
        r == if limited && (kind == IoKind::WouldBlock || kind == IoKind::TimedOut) {
            Exchange::TimedOut
        } else {
            Exchange::Failed(kind)
        },
{
    match kind {
        IoKind::WouldBlock | IoKind::TimedOut => if limited {
            Exchange::TimedOut
        } else {
            Exchange::Failed(kind)
        },
        _ => Exchange::Failed(kind),
    }
}

/// What a call returns after an exchange that ended as `exchange`: the payload
/// of the reply, the error that the reply carries, or the transport's failure
/// as an I/O fault.
pub open spec fn outcome(registry: &Registry, exchange: Exchange) -> Parsed {
    match exchange {
        Exchange::Reply(bytes) => parsed(registry, bytes@),
        Exchange::TimedOut => Parsed::Failure(ErrorView::Io(IoKind::TimedOut.code())),
        Exchange::Failed(kind) => Parsed::Failure(ErrorView::Io(kind.code())),
    }
}

/// The bytes of the request for the operation `id`, with its arguments as the
/// binary codec encoded them.
pub fn request(
    registry: &Registry,
    id: CommandID,
    args: Result<Vec<u8>, CodecFault>,
) -> (r: Result<Vec<u8>, Error>)
    ensures
        !registry.declares(id) ==> r == Err::<Vec<u8>, Error>(Error::NoCmd),
        registry.declares(id) ==> match args {
            Ok(data) => r matches Ok(bytes) && bytes@ == crate::command::frame(
                registry.code(id),
                data@,
            ),
            Err(fault) => r == Err::<Vec<u8>, Error>(Error::Bincode(fault.code())),
        },
{
    Command::serialize(registry, id, args)
}

/// The result of a call, from how its exchange ended. A reply under an
/// assigned identifier gives its payload. A reply under a reserved identifier
/// gives the error it carries: a failure on the remote side is returned like
/// a local one. A wait that ran out gives the I/O fault of the class
/// [`IoKind::TimedOut`].
pub fn response(registry: &Registry, exchange: Exchange) -> (r: Result<Vec<u8>, Error>)
    ensures
        match outcome(registry, exchange) {
            Parsed::Command(_, data) => r matches Ok(bytes) && bytes@ == data,
            Parsed::Failure(v) => r matches Err(e) && e@ == v,
        },
{
    match exchange {
        Exchange::Reply(bytes) => match Command::parse(registry, bytes.as_slice()) {
            Ok(c) => Ok(c.data),
            Err(e) => Err(e),
        },
        Exchange::TimedOut => Err(Error::from(IoKind::TimedOut)),
        Exchange::Failed(kind) => Err(Error::from(kind)),
    }
}

/// The number of seconds after which the host gives up; `None` where it waits
/// until a reply arrives.
pub fn deadline(wait: Wait) -> (r: Option<u64>)
    ensures
        r == match wait {
            Wait::Forever => Option::<u64>::None,
            Wait::Seconds(s) => Some(s),
        },
{
    match wait {
        Wait::Forever => None,
        Wait::Seconds(s) => Some(s),
    }
}

} // verus!
