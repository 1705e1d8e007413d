use readiness_bridge::attempt::Attempt;
use std::io::{Error, ErrorKind};

#[test]
fn classify_keeps_a_value() {
    assert_eq!(Attempt::<u32, &str>::classify(Ok(5), false), Attempt::Success(5));
    assert_eq!(Attempt::<u32, &str>::classify(Ok(5), true), Attempt::Success(5));
}

#[test]
fn classify_absorbs_would_block() {
    assert_eq!(Attempt::<u32, &str>::classify(Err("again"), true), Attempt::NotReady);
    assert_eq!(Attempt::<u32, &str>::failed(true, "again"), Attempt::NotReady);
}

#[test]
fn classify_keeps_a_hard_error() {
    assert_eq!(
        Attempt::<u32, &str>::classify(Err("denied"), false),
        Attempt::HardError("denied")
    );
    assert_eq!(Attempt::<u32, &str>::failed(false, "denied"), Attempt::HardError("denied"));
}

#[test]
fn io_value_is_a_success() {
    let outcome = Attempt::<usize, Error>::from_io(Ok(12));
    assert!(matches!(outcome, Attempt::Success(12)));
}

#[test]
fn io_would_block_is_not_ready() {
    let outcome = Attempt::<usize, Error>::from_io(Err(Error::from(ErrorKind::WouldBlock)));
    assert!(matches!(outcome, Attempt::NotReady));
    let outcome =
        Attempt::<(), Error>::from_io(Err(Error::new(ErrorKind::WouldBlock, "would block")));
    assert!(matches!(outcome, Attempt::NotReady));
}

#[test]
fn io_other_kinds_are_hard_errors_as_they_came() {
    for kind in [
        ErrorKind::NotFound,
        ErrorKind::PermissionDenied,
        ErrorKind::TimedOut,
        ErrorKind::Interrupted,
        ErrorKind::Other,
        ErrorKind::UnexpectedEof,
    ] {
        let outcome = Attempt::<usize, Error>::from_io(Err(Error::new(kind, "engine says no")));
        match outcome {
            Attempt::HardError(cause) => {
                assert_eq!(cause.kind(), kind);
                assert_eq!(cause.to_string(), "engine says no");
            }
            _ => panic!("a hard error was due"),
        }
    }
}

#[test]
fn engine_would_block_is_not_ready() {
    let again = ssh2::Error::new(ssh2::ErrorCode::Session(-37), "would block");
    let outcome = Attempt::<(), Error>::from_io(Err(Error::from(again)));
    assert!(matches!(outcome, Attempt::NotReady));
}

#[test]
fn engine_failure_is_a_hard_error() {
    let denied = ssh2::Error::new(ssh2::ErrorCode::Session(-18), "authentication failed");
    let outcome = Attempt::<(), Error>::from_io(Err(Error::from(denied)));
    match outcome {
        Attempt::HardError(cause) => assert_eq!(cause.to_string(), "authentication failed"),
        _ => panic!("a hard error was due"),
    }
}
