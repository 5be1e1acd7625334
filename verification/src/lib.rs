//! Command protocol and dispatch engine for satellite subsystem services.
//!
//! A service exposes its operations over datagrams. Every datagram is an
//! envelope: a two-byte big-endian command identifier followed by the encoded
//! payload. The identifiers `0` and `65535` are reserved and mark a reply whose
//! payload is an encoded [`Error`].
//!
//! The crate holds the protocol: the error taxonomy, the registry of
//! operations, the envelope, and the decisions of a dispatcher, a caller and a
//! gateway. Sockets, locks and terminals belong to the program around it.

pub mod caller;
pub mod codec;
pub mod command;
pub mod context;
pub mod dispatch;
pub mod endian;
pub mod errno;
pub mod error;
pub mod gateway;
pub mod last;
pub mod ping;
pub mod power;
pub mod registry;
pub mod response;
pub mod wire;

pub use crate::command::Command;
pub use crate::context::Context;
pub use crate::dispatch::{handle_err, Action, Dispatcher};
pub use crate::errno::Errno;
pub use crate::error::{
    from_bincode_error, CodecFault, DieselFault, Error, IoKind, Result, SerialFault,
    SyslogFault, UartFault,
};
pub use crate::gateway::Mode;
pub use crate::last::{Diagnostics, Last};
pub use crate::ping::Ping;
pub use crate::registry::{CommandID, Registry};
pub use crate::response::{GenericResponse, Resp};
