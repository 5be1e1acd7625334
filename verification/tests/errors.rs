use cubeos_service::error::{
    from_bincode_error, CodecFault, DieselFault, IoKind, SerialFault, SyslogFault, UartFault,
};
use cubeos_service::{Errno, Error};

fn all() -> Vec<Error> {
    vec![
        Error::Absent,
        Error::WrongNoArgs,
        Error::NoCmd,
        Error::ServiceError(200),
        Error::ServiceErrorX(3, 2.5f64.to_bits()),
        Error::Other,
        Error::Failure("no such pin".to_string()),
        Error::Io(22),
        Error::Infallible,
        Error::Bincode(8),
        Error::PoisonedMutex,
        Error::PoisonedRwLock,
        Error::Uart(1),
        Error::NixError(131),
        Error::Syslog(5),
        Error::Diesel(7),
    ]
}

#[test]
fn error_encodings_are_the_codec_s() {
    assert_eq!(Error::Absent.encode().unwrap(), bincode::serialize(&0u32).unwrap());
    assert_eq!(Error::Absent.encode().unwrap(), vec![0, 0, 0, 0]);
    assert_eq!(Error::NoCmd.encode().unwrap(), vec![2, 0, 0, 0]);
    assert_eq!(Error::ServiceError(7).encode().unwrap(), vec![3, 0, 0, 0, 7]);
    assert_eq!(
        Error::ServiceError(7).encode().unwrap(),
        bincode::serialize(&(3u32, 7u8)).unwrap()
    );
    assert_eq!(
        Error::ServiceErrorX(1, 1.5f64.to_bits()).encode().unwrap(),
        bincode::serialize(&(4u32, 1u8, 1.5f64)).unwrap()
    );
    assert_eq!(
        Error::ServiceErrorX(1, 0x0807_0605_0403_0201).encode().unwrap(),
        vec![4, 0, 0, 0, 1, 1, 2, 3, 4, 5, 6, 7, 8]
    );
    assert_eq!(
        Error::Failure("héllo".to_string()).encode().unwrap(),
        bincode::serialize(&(6u32, "héllo")).unwrap()
    );
    assert_eq!(
        Error::Failure("ab".to_string()).encode().unwrap(),
        vec![6, 0, 0, 0, 2, 0, 0, 0, 0, 0, 0, 0, 97, 98]
    );
    assert_eq!(Error::Io(22).encode().unwrap(), vec![7, 0, 0, 0, 22]);
    assert_eq!(Error::Diesel(3).encode().unwrap(), vec![15, 0, 0, 0, 3]);
}

#[test]
fn every_error_is_read_back_from_its_encoding() {
    for e in all() {
        let bytes = e.encode().unwrap();
        assert_eq!(Error::decode(&bytes), Ok(e.duplicate()));
        let mut longer = bytes.clone();
        longer.extend_from_slice(&[9, 9, 9]);
        assert_eq!(Error::decode(&longer), Ok(e));
    }
}

#[test]
fn the_variants_are_numbered_in_order() {
    for (index, e) in all().into_iter().enumerate() {
        let bytes = e.encode().unwrap();
        assert_eq!(&bytes[..4], &(index as u32).to_le_bytes());
    }
}

#[test]
fn decoding_fails_on_what_is_no_error() {
    assert_eq!(Error::decode(&[]), Err(CodecFault::Io));
    assert_eq!(Error::decode(&[1, 0, 0]), Err(CodecFault::Io));
    assert_eq!(Error::decode(&[3, 0, 0, 0]), Err(CodecFault::Io));
    assert_eq!(Error::decode(&[4, 0, 0, 0, 1, 2, 3]), Err(CodecFault::Io));
    assert_eq!(Error::decode(&[16, 0, 0, 0]), Err(CodecFault::Custom));
    assert_eq!(Error::decode(&[0, 0, 0, 1]), Err(CodecFault::Custom));
    assert_eq!(Error::decode(&[6, 0, 0, 0, 1, 0, 0, 0, 0, 0, 0, 0]), Err(CodecFault::Io));
    assert_eq!(
        Error::decode(&[6, 0, 0, 0, 1, 0, 0, 0, 0, 0, 0, 0, 0xff]),
        Err(CodecFault::InvalidUtf8Encoding)
    );
    assert_eq!(
        Error::decode(&[6, 0, 0, 0, 255, 255, 255, 255, 255, 255, 255, 127, 97]),
        Err(CodecFault::Io)
    );
}

#[test]
fn error_texts() {
    let expected = [
        "None",
        "Wrong Number of Arguments",
        "No Command with matching CommandID",
        "Service Error",
        "Service Error",
        "Other Error",
        "Failure Error",
        "IO Error",
        "Infallible",
        "bincode Error",
        "Poisened Mutex",
        "Poisened RwLockReadGuard",
        "UART Error",
        "Nix Error",
        "Syslog Error",
        "Diesel Error",
    ];
    for (e, text) in all().into_iter().zip(expected) {
        assert_eq!(e.to_string(), text);
    }
}

#[test]
fn duplicate_is_equal() {
    for e in all() {
        assert_eq!(e.duplicate(), e);
    }
}

#[test]
fn failure_keeps_the_name() {
    assert_eq!(Error::failure("Timeout"), Error::Failure("Timeout".to_string()));
}

#[test]
fn io_kinds_have_their_sub_codes() {
    let table = [
        (IoKind::NotFound, 0u8),
        (IoKind::PermissionDenied, 1),
        (IoKind::ConnectionRefused, 2),
        (IoKind::ConnectionReset, 3),
        (IoKind::ConnectionAborted, 6),
        (IoKind::NotConnected, 7),
        (IoKind::AddrInUse, 8),
        (IoKind::AddrNotAvailable, 9),
        (IoKind::BrokenPipe, 11),
        (IoKind::AlreadyExists, 12),
        (IoKind::WouldBlock, 13),
        (IoKind::InvalidInput, 20),
        (IoKind::InvalidData, 21),
        (IoKind::TimedOut, 22),
        (IoKind::WriteZero, 23),
        (IoKind::Interrupted, 35),
        (IoKind::Unsupported, 36),
        (IoKind::UnexpectedEof, 37),
        (IoKind::OutOfMemory, 38),
        (IoKind::Other, 39),
    ];
    for (kind, code) in table {
        assert_eq!(Error::from(kind), Error::Io(code));
        assert_eq!(IoKind::from(Error::Io(code)), kind);
    }
    assert_eq!(Error::from(IoKind::Uncategorized), Error::Io(40));
    assert_eq!(IoKind::from(Error::Io(40)), IoKind::Other);
    assert_eq!(IoKind::from(Error::Io(4)), IoKind::Other);
    assert_eq!(IoKind::from(Error::Io(255)), IoKind::Other);
    assert_eq!(IoKind::from(Error::NoCmd), IoKind::Other);
    assert_eq!(IoKind::TimedOut.name(), "TimedOut");
    assert_eq!(IoKind::Other.name(), "Other");
    assert_eq!(IoKind::NotFound.name(), "NotFound");
}

#[test]
fn codec_faults_have_their_sub_codes() {
    let table = [
        (CodecFault::Io, 0u8),
        (CodecFault::InvalidUtf8Encoding, 1),
        (CodecFault::InvalidBoolEncoding, 2),
        (CodecFault::InvalidCharEncoding, 3),
        (CodecFault::InvalidTagEncoding, 4),
        (CodecFault::DeserializeAnyNotSupported, 5),
        (CodecFault::SizeLimit, 6),
        (CodecFault::SequenceMustHaveLength, 7),
        (CodecFault::Custom, 8),
    ];
    for (fault, code) in table {
        assert_eq!(from_bincode_error(fault), code);
        assert_eq!(Error::from(fault), Error::Bincode(code));
    }
}

#[test]
fn uart_faults() {
    assert_eq!(Error::from(UartFault::GenericError), Error::Uart(0));
    assert_eq!(Error::from(UartFault::PortBusy), Error::Uart(1));
    assert_eq!(Error::from(UartFault::SerialError(SerialFault::NoDevice)), Error::Uart(2));
    assert_eq!(Error::from(UartFault::SerialError(SerialFault::InvalidInput)), Error::Uart(3));
    assert_eq!(
        Error::from(UartFault::SerialError(SerialFault::Io(IoKind::TimedOut))),
        Error::Io(22)
    );
}

#[test]
fn syslog_faults() {
    assert_eq!(Error::from(SyslogFault::Io(IoKind::BrokenPipe)), Error::Io(11));
    assert_eq!(Error::from(SyslogFault::Msg), Error::Syslog(0));
    assert_eq!(Error::from(SyslogFault::Initialization), Error::Syslog(1));
    assert_eq!(Error::from(SyslogFault::UnsupportedPlatform), Error::Syslog(2));
    assert_eq!(Error::from(SyslogFault::Format), Error::Syslog(3));
    assert_eq!(Error::from(SyslogFault::Write), Error::Syslog(4));
    assert_eq!(Error::from(SyslogFault::Unknown), Error::Syslog(5));
}

#[test]
fn diesel_faults() {
    let table = [
        (DieselFault::InvalidCString, 0u8),
        (DieselFault::DatabaseError, 1),
        (DieselFault::NotFound, 2),
        (DieselFault::QueryBuilderError, 3),
        (DieselFault::DeserializationError, 4),
        (DieselFault::SerializationError, 5),
        (DieselFault::RollbackTransaction, 6),
        (DieselFault::AlreadyInTransaction, 7),
    ];
    for (fault, code) in table {
        assert_eq!(Error::from(fault), Error::Diesel(code));
        assert_eq!(DieselFault::from(Error::Diesel(code)), fault);
    }
    assert_eq!(Error::from(DieselFault::Unknown), Error::Diesel(8));
    assert_eq!(DieselFault::from(Error::Diesel(8)), DieselFault::InvalidCString);
    assert_eq!(DieselFault::from(Error::Other), DieselFault::InvalidCString);
}

#[test]
fn errno_sub_codes() {
    assert_eq!(Error::from(Errno::UnknownErrno), Error::NixError(0));
    assert_eq!(Error::from(Errno::EPERM), Error::NixError(1));
    assert_eq!(Error::from(Errno::ELOOP), Error::NixError(40));
    assert_eq!(Error::from(Errno::ENOMSG), Error::NixError(41));
    assert_eq!(Error::from(Errno::EBADSLT), Error::NixError(56));
    assert_eq!(Error::from(Errno::EBFONT), Error::NixError(57));
    assert_eq!(Error::from(Errno::ETIMEDOUT), Error::NixError(108));
    assert_eq!(Error::from(Errno::EHWPOISON), Error::NixError(131));
    assert_eq!(Errno::from(Error::NixError(1)), Errno::EPERM);
    assert_eq!(Errno::from(Error::NixError(22)), Errno::EINVAL);
    assert_eq!(Errno::from(Error::NixError(131)), Errno::EHWPOISON);
    assert_eq!(Errno::from(Error::NixError(0)), Errno::UnknownErrno);
    assert_eq!(Errno::from(Error::NixError(132)), Errno::UnknownErrno);
    assert_eq!(Errno::from(Error::NixError(255)), Errno::UnknownErrno);
    assert_eq!(Errno::from(Error::Io(1)), Errno::UnknownErrno);
}

#[test]
fn errno_round_trips() {
    for code in 0..=255u8 {
        let errno = Errno::from(Error::NixError(code));
        if code <= 131 {
            assert_eq!(Error::from(errno), Error::NixError(code));
        } else {
            assert_eq!(errno, Errno::UnknownErrno);
        }
    }
}
