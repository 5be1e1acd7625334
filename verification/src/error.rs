//! The error taxonomy shared by services, callers and gateways.

use vstd::prelude::*;
use vstd::std_specs::convert::FromSpecImpl;

verus! {

/// Common error for command handling. Every value can be framed into a reply,
/// so a remote failure reaches the caller as the same type as a local one.
#[derive(Clone, Debug, PartialEq, Eq)]
pub enum Error {
    /// No value.
    Absent,
    /// Wrong number of arguments.
    WrongNoArgs,
    /// No command with a matching identifier.
    NoCmd,
    /// Service specific fault.
    ServiceError(u8),
    /// Service specific fault with one attached measurement, kept as the bit
    /// pattern of a 64-bit IEEE 754 number.
    ServiceErrorX(u8, u64),
    /// Any other error.
    Other,
    /// Generic failure with its message.
    Failure(String),
    /// I/O fault, by class.
    Io(u8),
    /// A conversion that cannot fail did.
    Infallible,
    /// Binary codec fault, by class.
    Bincode(u8),
    /// A mutex was poisoned.
    PoisonedMutex,
    /// A read-write lock was poisoned.
    PoisonedRwLock,
    /// Serial line fault, by class.
    Uart(u8),
    /// Operating system fault, by error number class.
    NixError(u8),
    /// System log fault, by class.
    Syslog(u8),
    /// Database fault, by class.
    Diesel(u8),
}

/// What an [`Error`] is, with the failure message as a sequence of characters.
pub ghost enum ErrorView {
    Absent,
    WrongNoArgs,
    NoCmd,
    ServiceError(u8),
    ServiceErrorX(u8, u64),
    Other,
    Failure(Seq<char>),
    Io(u8),
    Infallible,
    Bincode(u8),
    PoisonedMutex,
    PoisonedRwLock,
    Uart(u8),
    NixError(u8),
    Syslog(u8),
    Diesel(u8),
}

impl View for Error {
    type V = ErrorView;

    open spec fn view(&self) -> ErrorView {
        match *self {
            Error::Absent => ErrorView::Absent,
            Error::WrongNoArgs => ErrorView::WrongNoArgs,
            Error::NoCmd => ErrorView::NoCmd,
            Error::ServiceError(c) => ErrorView::ServiceError(c),
            Error::ServiceErrorX(c, bits) => ErrorView::ServiceErrorX(c, bits),
            Error::Other => ErrorView::Other,
            Error::Failure(msg) => ErrorView::Failure(msg@),
            Error::Io(c) => ErrorView::Io(c),
            Error::Infallible => ErrorView::Infallible,
            Error::Bincode(c) => ErrorView::Bincode(c),
            Error::PoisonedMutex => ErrorView::PoisonedMutex,
            Error::PoisonedRwLock => ErrorView::PoisonedRwLock,
            Error::Uart(c) => ErrorView::Uart(c),
            Error::NixError(c) => ErrorView::NixError(c),
            Error::Syslog(c) => ErrorView::Syslog(c),
            Error::Diesel(c) => ErrorView::Diesel(c),
        }
    }
}

impl Error {
    /// The text shown for this error.
    pub open spec fn text(self) -> Seq<char> {
        match self {
            Error::Absent => "None"@,
            Error::WrongNoArgs => "Wrong Number of Arguments"@,
            Error::NoCmd => "No Command with matching CommandID"@,
            Error::ServiceError(_) => "Service Error"@,
            Error::ServiceErrorX(_, _) => "Service Error"@,
            Error::Other => "Other Error"@,
            Error::Failure(_) => "Failure Error"@,
            Error::Io(_) => "IO Error"@,
            Error::Infallible => "Infallible"@,
            Error::Bincode(_) => "bincode Error"@,
            Error::PoisonedMutex => "Poisened Mutex"@,
            Error::PoisonedRwLock => "Poisened RwLockReadGuard"@,
            Error::Uart(_) => "UART Error"@,
            Error::NixError(_) => "Nix Error"@,
            Error::Syslog(_) => "Syslog Error"@,
            Error::Diesel(_) => "Diesel Error"@,
        }
    }

    /// Renders the error as the text a front end prints.
    pub fn to_string(&self) -> (r: String)
        ensures
            r@ == self.text(),
    {
        let text = match self {
            Error::Absent => "None",
            Error::WrongNoArgs => "Wrong Number of Arguments",
            Error::NoCmd => "No Command with matching CommandID",
            Error::ServiceError(_) => "Service Error",
            Error::ServiceErrorX(_, _) => "Service Error",
            Error::Other => "Other Error",
            Error::Failure(_) => "Failure Error",
            Error::Io(_) => "IO Error",
            Error::Infallible => "Infallible",
            Error::Bincode(_) => "bincode Error",
            Error::PoisonedMutex => "Poisened Mutex",
            Error::PoisonedRwLock => "Poisened RwLockReadGuard",
            Error::Uart(_) => "UART Error",
            Error::NixError(_) => "Nix Error",
            Error::Syslog(_) => "Syslog Error",
            Error::Diesel(_) => "Diesel Error",
        };
        text.to_owned()
    }

    /// A copy of the error.
    pub fn duplicate(&self) -> (r: Error)
        ensures
            r@ == self@,
    {
        match self {
            Error::Absent => Error::Absent,
            Error::WrongNoArgs => Error::WrongNoArgs,
            Error::NoCmd => Error::NoCmd,
            Error::ServiceError(c) => Error::ServiceError(*c),
            Error::ServiceErrorX(c, bits) => Error::ServiceErrorX(*c, *bits),
            Error::Other => Error::Other,
            Error::Failure(msg) => Error::Failure(msg.clone()),
            Error::Io(c) => Error::Io(*c),
            Error::Infallible => Error::Infallible,
            Error::Bincode(c) => Error::Bincode(*c),
            Error::PoisonedMutex => Error::PoisonedMutex,
            Error::PoisonedRwLock => Error::PoisonedRwLock,
            Error::Uart(c) => Error::Uart(*c),
            Error::NixError(c) => Error::NixError(*c),
            Error::Syslog(c) => Error::Syslog(*c),
            Error::Diesel(c) => Error::Diesel(*c),
        }
    }
}

/// A class of I/O failure, as the operating system reports it.
#[derive(Clone, Copy, Debug, PartialEq, Eq)]
pub enum IoKind {
    NotFound,
    PermissionDenied,
    ConnectionRefused,
    ConnectionReset,
    ConnectionAborted,
    NotConnected,
    AddrInUse,
    AddrNotAvailable,
    BrokenPipe,
    AlreadyExists,
    WouldBlock,
    InvalidInput,
    InvalidData,
    TimedOut,
    WriteZero,
    Interrupted,
    Unsupported,
    UnexpectedEof,
    OutOfMemory,
    Other,
    /// Any class without a sub-code of its own.
    Uncategorized,
}

impl IoKind {
    /// The sub-code under which this class travels in [`Error::Io`].
    pub open spec fn code(self) -> u8 {
        match self {
            IoKind::NotFound => 0,
            IoKind::PermissionDenied => 1,
            IoKind::ConnectionRefused => 2,
            IoKind::ConnectionReset => 3,
            IoKind::ConnectionAborted => 6,
            IoKind::NotConnected => 7,
            IoKind::AddrInUse => 8,
            IoKind::AddrNotAvailable => 9,
            IoKind::BrokenPipe => 11,
            IoKind::AlreadyExists => 12,
            IoKind::WouldBlock => 13,
            IoKind::InvalidInput => 20,
            IoKind::InvalidData => 21,
            IoKind::TimedOut => 22,
            IoKind::WriteZero => 23,
            IoKind::Interrupted => 35,
            IoKind::Unsupported => 36,
            IoKind::UnexpectedEof => 37,
            IoKind::OutOfMemory => 38,
            IoKind::Other => 39,
            IoKind::Uncategorized => 40,
        }
    }

    /// The class that travels under `code`; [`IoKind::Other`] where no class
    /// has that sub-code, and for the sub-code of the uncategorized ones.
    pub open spec fn with_code(code: u8) -> IoKind {
        match code {
            0 => IoKind::NotFound,
            1 => IoKind::PermissionDenied,
            2 => IoKind::ConnectionRefused,
            3 => IoKind::ConnectionReset,
            6 => IoKind::ConnectionAborted,
            7 => IoKind::NotConnected,
            8 => IoKind::AddrInUse,
            9 => IoKind::AddrNotAvailable,
            11 => IoKind::BrokenPipe,
            12 => IoKind::AlreadyExists,
            13 => IoKind::WouldBlock,
            20 => IoKind::InvalidInput,
            21 => IoKind::InvalidData,
            22 => IoKind::TimedOut,
            23 => IoKind::WriteZero,
            35 => IoKind::Interrupted,
            36 => IoKind::Unsupported,
            37 => IoKind::UnexpectedEof,
            38 => IoKind::OutOfMemory,
            _ => IoKind::Other,
        }
    }

    /// The name of the class.
    pub open spec fn label(self) -> Seq<char> {
        match self {
            IoKind::NotFound => "NotFound"@,
            IoKind::PermissionDenied => "PermissionDenied"@,
            IoKind::ConnectionRefused => "ConnectionRefused"@,
            IoKind::ConnectionReset => "ConnectionReset"@,
            IoKind::ConnectionAborted => "ConnectionAborted"@,
            IoKind::NotConnected => "NotConnected"@,
            IoKind::AddrInUse => "AddrInUse"@,
            IoKind::AddrNotAvailable => "AddrNotAvailable"@,
            IoKind::BrokenPipe => "BrokenPipe"@,
            IoKind::AlreadyExists => "AlreadyExists"@,
            IoKind::WouldBlock => "WouldBlock"@,
            IoKind::InvalidInput => "InvalidInput"@,
            IoKind::InvalidData => "InvalidData"@,
            IoKind::TimedOut => "TimedOut"@,
            IoKind::WriteZero => "WriteZero"@,
            IoKind::Interrupted => "Interrupted"@,
            IoKind::Unsupported => "Unsupported"@,
            IoKind::UnexpectedEof => "UnexpectedEof"@,
            IoKind::OutOfMemory => "OutOfMemory"@,
            IoKind::Other => "Other"@,
            IoKind::Uncategorized => "Uncategorized"@,
        }
    }

    /// The name of the class, the message of an I/O error rebuilt from it.
    pub fn name(self) -> (r: &'static str)
        ensures
            r@ == self.label(),
    {
        match self {
            IoKind::NotFound => "NotFound",
            IoKind::PermissionDenied => "PermissionDenied",
            IoKind::ConnectionRefused => "ConnectionRefused",
            IoKind::ConnectionReset => "ConnectionReset",
            IoKind::ConnectionAborted => "ConnectionAborted",
            IoKind::NotConnected => "NotConnected",
            IoKind::AddrInUse => "AddrInUse",
            IoKind::AddrNotAvailable => "AddrNotAvailable",
            IoKind::BrokenPipe => "BrokenPipe",
            IoKind::AlreadyExists => "AlreadyExists",
            IoKind::WouldBlock => "WouldBlock",
            IoKind::InvalidInput => "InvalidInput",
            IoKind::InvalidData => "InvalidData",
            IoKind::TimedOut => "TimedOut",
            IoKind::WriteZero => "WriteZero",
            IoKind::Interrupted => "Interrupted",
            IoKind::Unsupported => "Unsupported",
            IoKind::UnexpectedEof => "UnexpectedEof",
            IoKind::OutOfMemory => "OutOfMemory",
            IoKind::Other => "Other",
            IoKind::Uncategorized => "Uncategorized",
        }
    }

    /// A class with a sub-code of its own is read back from that sub-code.
    pub proof fn lemma_with_code_of_code(k: IoKind)
        requires
            k != IoKind::Uncategorized,
        ensures
            IoKind::with_code(k.code()) == k,
            k.code() <= 39,
    {
    }
}

impl From<IoKind> for Error {
    fn from(k: IoKind) -> (r: Error) {
        match k {
            IoKind::NotFound => Error::Io(0),
            IoKind::PermissionDenied => Error::Io(1),
            IoKind::ConnectionRefused => Error::Io(2),
            IoKind::ConnectionReset => Error::Io(3),
            IoKind::ConnectionAborted => Error::Io(6),
            IoKind::NotConnected => Error::Io(7),
            IoKind::AddrInUse => Error::Io(8),
            IoKind::AddrNotAvailable => Error::Io(9),
            IoKind::BrokenPipe => Error::Io(11),
            IoKind::AlreadyExists => Error::Io(12),
            IoKind::WouldBlock => Error::Io(13),
            IoKind::InvalidInput => Error::Io(20),
            IoKind::InvalidData => Error::Io(21),
            IoKind::TimedOut => Error::Io(22),
            IoKind::WriteZero => Error::Io(23),
            IoKind::Interrupted => Error::Io(35),
            IoKind::Unsupported => Error::Io(36),
            IoKind::UnexpectedEof => Error::Io(37),
            IoKind::OutOfMemory => Error::Io(38),
            IoKind::Other => Error::Io(39),
            IoKind::Uncategorized => Error::Io(40),
        }
    }
}

impl FromSpecImpl<IoKind> for Error {
    open spec fn obeys_from_spec() -> bool {
        true
    }

    open spec fn from_spec(k: IoKind) -> Error {
        Error::Io(k.code())
    }
}

impl From<Error> for IoKind {
    fn from(e: Error) -> (r: IoKind) {
        match e {
            Error::Io(0) => IoKind::NotFound,
            Error::Io(1) => IoKind::PermissionDenied,
            Error::Io(2) => IoKind::ConnectionRefused,
            Error::Io(3) => IoKind::ConnectionReset,
            Error::Io(6) => IoKind::ConnectionAborted,
            Error::Io(7) => IoKind::NotConnected,
            Error::Io(8) => IoKind::AddrInUse,
            Error::Io(9) => IoKind::AddrNotAvailable,
            Error::Io(11) => IoKind::BrokenPipe,
            Error::Io(12) => IoKind::AlreadyExists,
            Error::Io(13) => IoKind::WouldBlock,
            Error::Io(20) => IoKind::InvalidInput,
            Error::Io(21) => IoKind::InvalidData,
            Error::Io(22) => IoKind::TimedOut,
            Error::Io(23) => IoKind::WriteZero,
            Error::Io(35) => IoKind::Interrupted,
            Error::Io(36) => IoKind::Unsupported,
            Error::Io(37) => IoKind::UnexpectedEof,
            Error::Io(38) => IoKind::OutOfMemory,
            Error::Io(39) => IoKind::Other,
            _ => IoKind::Other,
        }
    }
}

impl FromSpecImpl<Error> for IoKind {
    open spec fn obeys_from_spec() -> bool {
        true
    }

    open spec fn from_spec(e: Error) -> IoKind {
        match e {
            Error::Io(code) => IoKind::with_code(code),
            _ => IoKind::Other,
        }
    }
}

/// A class of failure of the binary codec.
#[derive(Clone, Copy, Debug, PartialEq, Eq)]
pub enum CodecFault {
    /// The reader or writer failed; reading past the end of the input.
    Io,
    InvalidUtf8Encoding,
    InvalidBoolEncoding,
    InvalidCharEncoding,
    InvalidTagEncoding,
    DeserializeAnyNotSupported,
    SizeLimit,
    SequenceMustHaveLength,
    /// A failure with a message of its own; an unknown variant index.
    Custom,
}

impl CodecFault {
    /// The sub-code under which this class travels in [`Error::Bincode`], and
    /// the last byte of a reply that could not carry its own error.
    pub open spec fn code(self) -> u8 {
        match self {
            CodecFault::Io => 0,
            CodecFault::InvalidUtf8Encoding => 1,
            CodecFault::InvalidBoolEncoding => 2,
            CodecFault::InvalidCharEncoding => 3,
            CodecFault::InvalidTagEncoding => 4,
            CodecFault::DeserializeAnyNotSupported => 5,
            CodecFault::SizeLimit => 6,
            CodecFault::SequenceMustHaveLength => 7,
            CodecFault::Custom => 8,
        }
    }
}

/// The sub-code of a codec failure.
pub fn from_bincode_error(fault: CodecFault) -> (r: u8)
    ensures
        r == fault.code(),
{
    match fault {
        CodecFault::Io => 0,
        CodecFault::InvalidUtf8Encoding => 1,
        CodecFault::InvalidBoolEncoding => 2,
        CodecFault::InvalidCharEncoding => 3,
        CodecFault::InvalidTagEncoding => 4,
        CodecFault::DeserializeAnyNotSupported => 5,
        CodecFault::SizeLimit => 6,
        CodecFault::SequenceMustHaveLength => 7,
        CodecFault::Custom => 8,
    }
}

impl From<CodecFault> for Error {
    fn from(fault: CodecFault) -> (r: Error) {
        Error::Bincode(from_bincode_error(fault))
    }
}

impl FromSpecImpl<CodecFault> for Error {
    open spec fn obeys_from_spec() -> bool {
        true
    }

    open spec fn from_spec(fault: CodecFault) -> Error {
        Error::Bincode(fault.code())
    }
}

/// A class of failure of a serial port.
#[derive(Clone, Copy, Debug, PartialEq, Eq)]
pub enum SerialFault {
    NoDevice,
    InvalidInput,
    Io(IoKind),
}

/// A class of failure of the UART layer.
#[derive(Clone, Copy, Debug, PartialEq, Eq)]
pub enum UartFault {
    GenericError,
    PortBusy,
    SerialError(SerialFault),
}

impl From<UartFault> for Error {
    fn from(fault: UartFault) -> (r: Error) {
        match fault {
            UartFault::GenericError => Error::Uart(0),
            UartFault::PortBusy => Error::Uart(1),
            UartFault::SerialError(s) => match s {
                SerialFault::NoDevice => Error::Uart(2),
                SerialFault::InvalidInput => Error::Uart(3),
                SerialFault::Io(io) => Error::from(io),
            },
        }
    }
}

impl FromSpecImpl<UartFault> for Error {
    open spec fn obeys_from_spec() -> bool {
        true
    }

    /// A serial port's I/O failure is reported as the I/O fault it is; every
    /// other class has a sub-code of the UART's own.
    open spec fn from_spec(fault: UartFault) -> Error {
        match fault {
            UartFault::GenericError => Error::Uart(0),
            UartFault::PortBusy => Error::Uart(1),
            UartFault::SerialError(SerialFault::NoDevice) => Error::Uart(2),
            UartFault::SerialError(SerialFault::InvalidInput) => Error::Uart(3),
            UartFault::SerialError(SerialFault::Io(io)) => Error::Io(io.code()),
        }
    }
}

/// A class of failure of the system log.
#[derive(Clone, Copy, Debug, PartialEq, Eq)]
pub enum SyslogFault {
    Io(IoKind),
    Msg,
    Initialization,
    UnsupportedPlatform,
    Format,
    Write,
    /// Any class added since.
    Unknown,
}

impl From<SyslogFault> for Error {
    fn from(fault: SyslogFault) -> (r: Error) {
        match fault {
            SyslogFault::Io(io) => Error::from(io),
            SyslogFault::Msg => Error::Syslog(0),
            SyslogFault::Initialization => Error::Syslog(1),
            SyslogFault::UnsupportedPlatform => Error::Syslog(2),
            SyslogFault::Format => Error::Syslog(3),
            SyslogFault::Write => Error::Syslog(4),
            SyslogFault::Unknown => Error::Syslog(5),
        }
    }
}

impl FromSpecImpl<SyslogFault> for Error {
    open spec fn obeys_from_spec() -> bool {
        true
    }

    /// The log's I/O failure is reported as the I/O fault it is; every other
    /// class has a sub-code of the log's own.
    open spec fn from_spec(fault: SyslogFault) -> Error {
        match fault {
            SyslogFault::Io(io) => Error::Io(io.code()),
            SyslogFault::Msg => Error::Syslog(0),
            SyslogFault::Initialization => Error::Syslog(1),
            SyslogFault::UnsupportedPlatform => Error::Syslog(2),
            SyslogFault::Format => Error::Syslog(3),
            SyslogFault::Write => Error::Syslog(4),
            SyslogFault::Unknown => Error::Syslog(5),
        }
    }
}

/// A class of failure of the telemetry database.
#[derive(Clone, Copy, Debug, PartialEq, Eq)]
pub enum DieselFault {
    InvalidCString,
    DatabaseError,
    NotFound,
    QueryBuilderError,
    DeserializationError,
    SerializationError,
    RollbackTransaction,
    AlreadyInTransaction,
    /// Any class added since.
    Unknown,
}

impl DieselFault {
    /// The sub-code under which this class travels in [`Error::Diesel`].
    pub open spec fn code(self) -> u8 {
        match self {
            DieselFault::InvalidCString => 0,
            DieselFault::DatabaseError => 1,
            DieselFault::NotFound => 2,
            DieselFault::QueryBuilderError => 3,
            DieselFault::DeserializationError => 4,
            DieselFault::SerializationError => 5,
            DieselFault::RollbackTransaction => 6,
            DieselFault::AlreadyInTransaction => 7,
            DieselFault::Unknown => 8,
        }
    }

    /// The class that travels under `code`; [`DieselFault::InvalidCString`]
    /// where no named class has that sub-code.
    pub open spec fn with_code(code: u8) -> DieselFault {
        match code {
            1 => DieselFault::DatabaseError,
            2 => DieselFault::NotFound,
            3 => DieselFault::QueryBuilderError,
            4 => DieselFault::DeserializationError,
            5 => DieselFault::SerializationError,
            6 => DieselFault::RollbackTransaction,
            7 => DieselFault::AlreadyInTransaction,
            _ => DieselFault::InvalidCString,
        }
    }

    /// A named class is read back from its sub-code.
    pub proof fn lemma_with_code_of_code(fault: DieselFault)
        requires
            fault != DieselFault::Unknown,
        ensures
            DieselFault::with_code(fault.code()) == fault,
            fault.code() <= 7,
    {
    }
}

impl From<DieselFault> for Error {
    fn from(fault: DieselFault) -> (r: Error) {
        match fault {
            DieselFault::InvalidCString => Error::Diesel(0),
            DieselFault::DatabaseError => Error::Diesel(1),
            DieselFault::NotFound => Error::Diesel(2),
            DieselFault::QueryBuilderError => Error::Diesel(3),
            DieselFault::DeserializationError => Error::Diesel(4),
            DieselFault::SerializationError => Error::Diesel(5),
            DieselFault::RollbackTransaction => Error::Diesel(6),
            DieselFault::AlreadyInTransaction => Error::Diesel(7),
            DieselFault::Unknown => Error::Diesel(8),
        }
    }
}

impl FromSpecImpl<DieselFault> for Error {
    open spec fn obeys_from_spec() -> bool {
        true
    }

    open spec fn from_spec(fault: DieselFault) -> Error {
        Error::Diesel(fault.code())
    }
}

impl From<Error> for DieselFault {
    fn from(e: Error) -> (r: DieselFault) {
        match e {
            Error::Diesel(0) => DieselFault::InvalidCString,
            Error::Diesel(1) => DieselFault::DatabaseError,
            Error::Diesel(2) => DieselFault::NotFound,
            Error::Diesel(3) => DieselFault::QueryBuilderError,
            Error::Diesel(4) => DieselFault::DeserializationError,
            Error::Diesel(5) => DieselFault::SerializationError,
            Error::Diesel(6) => DieselFault::RollbackTransaction,
            Error::Diesel(7) => DieselFault::AlreadyInTransaction,
            _ => DieselFault::InvalidCString,
        }
    }
}

impl FromSpecImpl<Error> for DieselFault {
    open spec fn obeys_from_spec() -> bool {
        true
    }

    open spec fn from_spec(e: Error) -> DieselFault {
        match e {
            Error::Diesel(code) => DieselFault::with_code(code),
            _ => DieselFault::InvalidCString,
        }
    }
}

/// The result of an operation of a service.
pub type Result<T> = core::result::Result<T, Error>;

} // verus!
