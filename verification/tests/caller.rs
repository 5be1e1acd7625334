use cubeos_service::caller::{deadline, ended, request, response, Exchange, Wait};
use cubeos_service::dispatch::handle_err;
use cubeos_service::error::IoKind;
use cubeos_service::registry::{CommandID, Registry};
use cubeos_service::{CodecFault, Error};

fn registry() -> Registry {
    Registry::new(vec!["Ping".to_string(), "SetPower".to_string()]).unwrap()
}

#[test]
fn a_request_is_the_framed_arguments() {
    let registry = registry();
    let id = registry.try_from_name("SetPower").unwrap();
    assert_eq!(
        request(&registry, id, Ok(bincode::serialize(&(false,)).unwrap())),
        Ok(vec![0, 2, 0])
    );
    assert_eq!(request(&registry, CommandID { index: 7 }, Ok(vec![])), Err(Error::NoCmd));
    assert_eq!(request(&registry, id, Err(CodecFault::Custom)), Err(Error::Bincode(8)));
    assert_eq!(request(&registry, id, Err(CodecFault::SizeLimit)), Err(Error::Bincode(6)));
}

#[test]
fn a_reply_gives_its_payload() {
    let registry = registry();
    assert_eq!(response(&registry, Exchange::Reply(vec![0, 2, 5, 6])), Ok(vec![5, 6]));
    assert_eq!(response(&registry, Exchange::Reply(vec![0, 1])), Ok(vec![]));
}

#[test]
fn a_remote_failure_is_returned_like_a_local_one() {
    let registry = registry();
    let reply = handle_err(&Error::ServiceError(3));
    assert_eq!(response(&registry, Exchange::Reply(reply)), Err(Error::ServiceError(3)));
    assert_eq!(response(&registry, Exchange::Reply(vec![0, 9])), Err(Error::NoCmd));
    assert_eq!(response(&registry, Exchange::Reply(vec![])), Err(Error::NoCmd));
    assert_eq!(response(&registry, Exchange::Reply(vec![255, 255, 6])), Err(Error::Bincode(6)));
    assert_eq!(response(&registry, Exchange::Reply(vec![0, 0, 6])), Err(Error::Bincode(0)));
}

#[test]
fn a_wait_that_ran_out_is_a_timeout_fault() {
    let registry = registry();
    assert_eq!(response(&registry, Exchange::TimedOut), Err(Error::Io(22)));
    assert_eq!(response(&registry, Exchange::TimedOut), Err(Error::from(IoKind::TimedOut)));
}

#[test]
fn a_transport_failure_is_an_io_fault() {
    let registry = registry();
    assert_eq!(response(&registry, Exchange::Failed(IoKind::ConnectionRefused)), Err(Error::Io(2)));
    assert_eq!(response(&registry, Exchange::Failed(IoKind::AddrInUse)), Err(Error::Io(8)));
    assert_eq!(response(&registry, Exchange::Failed(IoKind::Uncategorized)), Err(Error::Io(40)));
}

#[test]
fn deadlines() {
    assert_eq!(deadline(Wait::Forever), None);
    assert_eq!(deadline(Wait::Seconds(1)), Some(1));
    assert_eq!(deadline(Wait::Seconds(0)), Some(0));
}

#[test]
fn a_limited_wait_that_would_block_has_run_out() {
    assert!(matches!(ended(IoKind::WouldBlock, true), Exchange::TimedOut));
    assert!(matches!(ended(IoKind::TimedOut, true), Exchange::TimedOut));
    assert!(matches!(ended(IoKind::WouldBlock, false), Exchange::Failed(IoKind::WouldBlock)));
    assert!(matches!(ended(IoKind::TimedOut, false), Exchange::Failed(IoKind::TimedOut)));
    assert!(matches!(
        ended(IoKind::ConnectionRefused, true),
        Exchange::Failed(IoKind::ConnectionRefused)
    ));
    assert!(matches!(ended(IoKind::Other, false), Exchange::Failed(IoKind::Other)));
    let registry = registry();
    assert_eq!(response(&registry, ended(IoKind::WouldBlock, true)), Err(Error::Io(22)));
    assert_eq!(response(&registry, ended(IoKind::WouldBlock, false)), Err(Error::Io(13)));
}
