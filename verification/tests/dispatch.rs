use cubeos_service::command::Command;
use cubeos_service::dispatch::{error_reply, handle_err, Action, Dispatcher};
use cubeos_service::error::CodecFault;
use cubeos_service::registry::{CommandID, Registry};
use cubeos_service::{Error, Last};

fn dispatcher() -> Dispatcher {
    Dispatcher::new(Registry::new(vec!["Ping".to_string(), "SetPower".to_string()]).unwrap())
}

#[test]
fn set_power_is_routed_and_answered() {
    let mut d = dispatcher();
    let mut request = vec![0x00, 0x02];
    request.extend(bincode::serialize(&(true,)).unwrap());
    let action = d.receive(&request);
    let (id, args) = match action {
        Action::Execute { id, args } => (id, args),
        Action::Reply(bytes) => panic!("answered at once: {:?}", bytes),
    };
    assert_eq!(id, CommandID { index: 1 });
    assert_eq!(bincode::deserialize::<(bool,)>(&args).unwrap(), (true,));
    assert_eq!(d.log.get_last_cmd(), Ok(request.clone()));
    let result = bincode::serialize(&42u32).unwrap();
    let reply = d.complete(id, Ok(Ok(result)));
    assert_eq!(reply, vec![0x00, 0x02, 42, 0, 0, 0]);
    assert_eq!(d.log.get_last_err(), Ok(Error::Absent));
}

#[test]
fn an_unassigned_code_is_answered_with_no_command() {
    let mut d = dispatcher();
    let action = d.receive(&[0x00, 0x05]);
    let mut expected = vec![0x00, 0x00];
    expected.extend(Error::NoCmd.encode().unwrap());
    assert_eq!(action, Action::Reply(expected.clone()));
    assert_eq!(expected, vec![0, 0, 2, 0, 0, 0]);
    assert_eq!(d.log.get_last_err(), Ok(Error::NoCmd));
    assert_eq!(d.log.get_last_cmd(), Ok(Vec::new()));
    assert_eq!(Command::parse(&d.registry, &expected), Err(Error::NoCmd));
}

#[test]
fn garbage_datagrams_are_answered_with_no_command() {
    for datagram in [vec![], vec![0u8], vec![7], vec![0, 0], vec![255, 255, 1], vec![0, 3]] {
        let mut d = dispatcher();
        assert_eq!(d.receive(&datagram), Action::Reply(vec![0, 0, 2, 0, 0, 0]));
        assert_eq!(d.log.get_last_err(), Ok(Error::NoCmd));
    }
}

#[test]
fn a_failing_handler_is_answered_with_its_error() {
    let mut d = dispatcher();
    let id = match d.receive(&[0, 1]) {
        Action::Execute { id, args } => {
            assert!(args.is_empty());
            id
        },
        Action::Reply(_) => panic!("not routed"),
    };
    let reply = d.complete(id, Err(Error::ServiceError(4)));
    assert_eq!(reply, vec![0, 0, 3, 0, 0, 0, 4]);
    assert_eq!(d.log.get_last_err(), Ok(Error::ServiceError(4)));
    assert_eq!(d.log.get_last_cmd(), Ok(vec![0, 1]));
    assert_eq!(Command::parse(&d.registry, &reply), Err(Error::ServiceError(4)));
}

#[test]
fn a_result_that_was_not_encoded_is_answered_with_a_codec_fault() {
    let mut d = dispatcher();
    let reply = d.complete(CommandID { index: 0 }, Ok(Err(CodecFault::SizeLimit)));
    assert_eq!(reply, vec![0, 0, 9, 0, 0, 0, 6]);
    assert_eq!(d.log.get_last_err(), Ok(Error::Bincode(6)));
}

#[test]
fn a_foreign_command_is_answered_with_no_command() {
    let mut d = dispatcher();
    let reply = d.complete(CommandID { index: 2 }, Ok(Ok(vec![1])));
    assert_eq!(reply, vec![0, 0, 2, 0, 0, 0]);
    assert_eq!(d.log.get_last_err(), Ok(Error::NoCmd));
    let reply = d.complete(CommandID { index: 2 }, Ok(Err(CodecFault::Io)));
    assert_eq!(reply, vec![0, 0, 2, 0, 0, 0]);
    let reply = d.complete(CommandID { index: 2 }, Err(Error::Other));
    assert_eq!(reply, vec![0, 0, 5, 0, 0, 0]);
    assert_eq!(d.log.get_last_err(), Ok(Error::Other));
}

#[test]
fn error_replies_are_the_encoded_error_behind_the_sentinel() {
    assert_eq!(handle_err(&Error::NoCmd), vec![0x00, 0x00, 0x02, 0x00, 0x00, 0x00]);
    assert_eq!(handle_err(&Error::Io(22)), vec![0x00, 0x00, 0x07, 0x00, 0x00, 0x00, 0x16]);
    assert_eq!(
        handle_err(&Error::Failure("a".to_string())),
        vec![0, 0, 6, 0, 0, 0, 1, 0, 0, 0, 0, 0, 0, 0, 0x61]
    );
    let err = Error::ServiceErrorX(9, 1.25f64.to_bits());
    let encoded = err.encode().unwrap();
    let reply = handle_err(&err);
    assert_eq!(reply.len(), 2 + encoded.len());
    assert_eq!(&reply[2..], &encoded[..]);
    assert_eq!(handle_err(&err), reply);
}

#[test]
fn the_log_keeps_only_the_last_entry() {
    let mut d = dispatcher();
    d.receive(&[0, 1]);
    d.receive(&[0, 2, 1]);
    assert_eq!(d.log.get_last_cmd(), Ok(vec![0, 2, 1]));
    d.complete(CommandID { index: 1 }, Err(Error::Other));
    d.complete(CommandID { index: 1 }, Err(Error::Uart(2)));
    assert_eq!(d.log.get_last_err(), Ok(Error::Uart(2)));
    d.receive(&[9, 9]);
    assert_eq!(d.log.get_last_err(), Ok(Error::NoCmd));
    assert_eq!(d.log.get_last_cmd(), Ok(vec![0, 2, 1]));
}

#[test]
fn error_replies_are_framed_under_the_reserved_identifiers() {
    assert_eq!(error_reply(Ok(vec![2, 0, 0, 0])), vec![0, 0, 2, 0, 0, 0]);
    assert_eq!(error_reply(Ok(vec![])), vec![0, 0]);
    assert_eq!(error_reply(Err(CodecFault::Io)), vec![255, 255, 0]);
    assert_eq!(error_reply(Err(CodecFault::SizeLimit)), vec![255, 255, 6]);
    assert_eq!(error_reply(Err(CodecFault::Custom)), vec![255, 255, 8]);
}

#[test]
fn a_reply_without_its_error_comes_back_as_a_codec_fault() {
    let registry = Registry::new(vec!["Ping".to_string()]).unwrap();
    let faults = [
        (CodecFault::Io, 0u8),
        (CodecFault::InvalidUtf8Encoding, 1),
        (CodecFault::InvalidBoolEncoding, 2),
        (CodecFault::InvalidCharEncoding, 3),
        (CodecFault::InvalidTagEncoding, 4),
        (CodecFault::DeserializeAnyNotSupported, 5),
        (CodecFault::SizeLimit, 6),
        (CodecFault::SequenceMustHaveLength, 7),
        (CodecFault::Custom, 8),
    ];
    for (fault, code) in faults {
        let reply = error_reply(Err(fault));
        assert_eq!(reply, vec![255, 255, code]);
        assert_eq!(Command::parse(&registry, &reply), Err(Error::Bincode(code)));
    }
}

#[test]
fn every_error_comes_back_from_its_reply() {
    let registry = Registry::new(vec!["Ping".to_string()]).unwrap();
    let errors = vec![
        Error::Absent,
        Error::WrongNoArgs,
        Error::NoCmd,
        Error::ServiceError(1),
        Error::ServiceErrorX(2, f64::NAN.to_bits()),
        Error::ServiceErrorX(2, (-0.0f64).to_bits()),
        Error::Other,
        Error::Failure(String::new()),
        Error::Failure("lost contact \u{1F6F0}".to_string()),
        Error::Io(40),
        Error::Infallible,
        Error::Bincode(0),
        Error::PoisonedMutex,
        Error::PoisonedRwLock,
        Error::Uart(3),
        Error::NixError(0),
        Error::Syslog(255),
        Error::Diesel(8),
    ];
    for e in errors {
        let reply = handle_err(&e);
        assert_eq!(&reply[..2], &[0, 0]);
        assert_eq!(Command::parse(&registry, &reply), Err(e));
    }
}
