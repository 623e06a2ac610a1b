use shared::{ReadFault, ReadStep, ReadStreamError};
use std::io::{Error, ErrorKind};

/// A socket that answers its reads from a script, and counts them.
struct Script {
    answers: Vec<Result<usize, Error>>,
    reads: usize,
}

fn script(mut answers: Vec<Result<usize, Error>>) -> Script {
    answers.reverse();
    Script { answers, reads: 0 }
}

fn would_block() -> Result<usize, Error> {
    Err(Error::from(ErrorKind::WouldBlock))
}

/// The retry loop, as a caller of the library runs it.
fn run(script: &mut Script, capacity: usize) -> Result<usize, ReadStreamError> {
    loop {
        let answer = script.answers.pop().expect("the script ran out of answers");
        script.reads += 1;
        match ReadStep::after(answer, capacity) {
            ReadStep::Retry => continue,
            ReadStep::Done(result) => return result,
        }
    }
}

#[test]
fn positive_count_is_the_result() {
    match ReadStep::after(Ok(5), 16) {
        ReadStep::Done(Ok(count)) => assert_eq!(count, 5),
        other => panic!("unexpected step: {:?}", other),
    }
}

#[test]
fn one_byte_is_enough() {
    assert!(matches!(ReadStep::after(Ok(1), 1), ReadStep::Done(Ok(1))));
}

#[test]
fn full_buffer_is_the_result() {
    assert!(matches!(ReadStep::after(Ok(1024), 1024), ReadStep::Done(Ok(1024))));
}

#[test]
fn zero_count_is_connection_closed() {
    let step = ReadStep::after(Ok(0), 16);
    assert!(matches!(step, ReadStep::Done(Err(ReadStreamError::ConnectionClosed))));
}

#[test]
fn would_block_answer_asks_for_a_retry() {
    assert!(matches!(ReadStep::after(would_block(), 16), ReadStep::Retry));
}

#[test]
fn reset_answer_is_terminal_and_keeps_its_error() {
    let reset = Error::new(ErrorKind::ConnectionReset, "reset by peer");
    match ReadStep::after(Err(reset), 16) {
        ReadStep::Done(Err(ReadStreamError::IoError(error))) => {
            assert_eq!(error.kind(), ErrorKind::ConnectionReset);
            assert_eq!(error.to_string(), "reset by peer");
        }
        other => panic!("unexpected step: {:?}", other),
    }
}

#[test]
fn decide_returns_a_positive_count() {
    assert!(matches!(ReadStep::decide(Ok(5)), ReadStep::Done(Ok(5))));
    assert!(matches!(ReadStep::decide(Ok(usize::MAX)), ReadStep::Done(Ok(usize::MAX))));
}

#[test]
fn decide_takes_zero_for_a_close() {
    let step = ReadStep::decide(Ok(0));
    assert!(matches!(step, ReadStep::Done(Err(ReadStreamError::ConnectionClosed))));
}

#[test]
fn decide_retries_on_would_block() {
    assert!(matches!(ReadStep::decide(Err(ReadFault::WouldBlock)), ReadStep::Retry));
}

#[test]
fn decide_forwards_any_other_fault() {
    let fault = ReadFault::Other(Error::new(ErrorKind::ConnectionReset, "reset by peer"));
    match ReadStep::decide(Err(fault)) {
        ReadStep::Done(Err(ReadStreamError::IoError(error))) => {
            assert_eq!(error.kind(), ErrorKind::ConnectionReset);
            assert_eq!(error.to_string(), "reset by peer");
        }
        other => panic!("unexpected step: {:?}", other),
    }
}

#[test]
fn would_block_error_is_classified_as_would_block() {
    let fault = ReadFault::classify(Error::from(ErrorKind::WouldBlock));
    assert!(matches!(fault, ReadFault::WouldBlock));
}

#[test]
fn would_block_error_with_a_message_is_still_would_block() {
    let fault = ReadFault::classify(Error::new(ErrorKind::WouldBlock, "try again"));
    assert!(matches!(fault, ReadFault::WouldBlock));
}

#[test]
fn other_errors_are_classified_as_other_and_kept() {
    let kinds = [
        ErrorKind::ConnectionReset,
        ErrorKind::ConnectionAborted,
        ErrorKind::BrokenPipe,
        ErrorKind::TimedOut,
        ErrorKind::Interrupted,
        ErrorKind::UnexpectedEof,
        ErrorKind::Other,
    ];
    for kind in kinds {
        match ReadFault::classify(Error::new(kind, "detail")) {
            ReadFault::Other(error) => {
                assert_eq!(error.kind(), kind);
                assert_eq!(error.to_string(), "detail");
            }
            ReadFault::WouldBlock => panic!("{:?} was taken for a would-block", kind),
        }
    }
}

#[test]
fn os_error_is_classified_by_its_kind() {
    let fault = ReadFault::classify(Error::from(ErrorKind::PermissionDenied));
    match fault {
        ReadFault::Other(error) => assert_eq!(error.kind(), ErrorKind::PermissionDenied),
        ReadFault::WouldBlock => panic!("taken for a would-block"),
    }
}

#[test]
fn data_after_would_blocks_is_returned() {
    let mut socket = script(vec![would_block(), would_block(), would_block(), Ok(7)]);
    match run(&mut socket, 16) {
        Ok(count) => assert_eq!(count, 7),
        Err(failure) => panic!("unexpected failure: {:?}", failure),
    }
    assert_eq!(socket.reads, 4);
}

#[test]
fn data_at_once_is_returned_after_one_read() {
    let mut socket = script(vec![Ok(3), Ok(9)]);
    assert!(matches!(run(&mut socket, 16), Ok(3)));
    assert_eq!(socket.reads, 1);
}

#[test]
fn partial_delivery_returns_what_was_available() {
    let mut socket = script(vec![Ok(4), Ok(6)]);
    assert!(matches!(run(&mut socket, 10), Ok(4)));
    assert!(matches!(run(&mut socket, 10), Ok(6)));
    assert_eq!(socket.reads, 2);
}

#[test]
fn close_is_reported_without_further_reads() {
    let mut socket = script(vec![Ok(0), Ok(5)]);
    assert!(matches!(run(&mut socket, 16), Err(ReadStreamError::ConnectionClosed)));
    assert_eq!(socket.reads, 1);
}

#[test]
fn close_after_would_blocks_is_reported() {
    let mut socket = script(vec![would_block(), would_block(), Ok(0)]);
    assert!(matches!(run(&mut socket, 16), Err(ReadStreamError::ConnectionClosed)));
    assert_eq!(socket.reads, 3);
}

#[test]
fn many_would_blocks_are_all_absorbed() {
    let mut answers: Vec<Result<usize, Error>> = Vec::new();
    for _ in 0..1000 {
        answers.push(would_block());
    }
    answers.push(Ok(1));
    let mut socket = script(answers);
    assert!(matches!(run(&mut socket, 1), Ok(1)));
    assert_eq!(socket.reads, 1001);
}

#[test]
fn reset_is_forwarded_at_its_first_occurrence() {
    let reset = Error::new(ErrorKind::ConnectionReset, "reset by peer");
    let mut socket = script(vec![would_block(), Err(reset), Ok(5)]);
    match run(&mut socket, 16) {
        Err(ReadStreamError::IoError(error)) => {
            assert_eq!(error.kind(), ErrorKind::ConnectionReset);
            assert_eq!(error.to_string(), "reset by peer");
        }
        other => panic!("unexpected result: {:?}", other),
    }
    assert_eq!(socket.reads, 2);
}

#[test]
fn failure_is_never_a_would_block() {
    let mut socket = script(vec![
        would_block(),
        would_block(),
        Err(Error::from(ErrorKind::TimedOut)),
    ]);
    match run(&mut socket, 16) {
        Err(ReadStreamError::IoError(error)) => assert_ne!(error.kind(), ErrorKind::WouldBlock),
        other => panic!("unexpected result: {:?}", other),
    }
}
