//! Reading at least one byte from a stream socket that may be non-blocking.
//!
//! A single read of such a socket has three possible outcomes: bytes, a
//! transient "would block", or a terminal condition. The caller of the
//! primitive sees only two: bytes, or a terminal failure. This module holds
//! the rule that maps one onto the other. The caller owns the socket and
//! runs the loop: read, ask [`ReadStep::after`], read again on `Retry`,
//! return on `Done`.

use vstd::prelude::*;

verus! {

/// The platform's I/O error. It is carried through unchanged, and only
/// [`ReadFault::classify`] looks at it.
#[verifier::external_type_specification]
#[verifier::external_body]
pub struct ExIoError(std::io::Error);

/// Whether the kind of `error`, as `std::io::Error::kind` reports it, is
/// `std::io::ErrorKind::WouldBlock`.
pub uninterp spec fn would_block(error: std::io::Error) -> bool;

/// Calls `std::io::Error::kind` and tells `ErrorKind::WouldBlock` from every
/// other kind. Trusted: the answer is the one that `would_block` names.
#[verifier::external_body]
fn kind_is_would_block(error: &std::io::Error) -> (answer: bool)
    ensures
        answer == would_block(*error),
{
    match error.kind() {
        std::io::ErrorKind::WouldBlock => true,
        _ => false,
    }
}

/// The terminal failures of a stream read.
#[derive(Debug)]
pub enum ReadStreamError {
    /// The stream reached end of input: the peer has closed the connection,
    /// and no further byte will arrive.
    ConnectionClosed,
    /// The transport failed. Carries the platform's own error, which is never
    /// a "would block".
    IoError(std::io::Error),
}

impl ReadStreamError {
    /// A terminal failure never wraps a "would block".
    pub open spec fn wf(self) -> bool {
        self matches ReadStreamError::IoError(error) ==> !would_block(error)
    }
}

/// Why one read attempt failed: the closed set of cases that the retry rule
/// tells apart.
#[derive(Debug)]
pub enum ReadFault {
    /// No data is ready yet; the read may be tried again.
    WouldBlock,
    /// Any other failure, with the platform's error.
    Other(std::io::Error),
}

impl ReadFault {
    /// The fault that stands for the platform error `error`.
    pub open spec fn of(error: std::io::Error) -> ReadFault {
        if would_block(error) {
            ReadFault::WouldBlock
        } else {
            ReadFault::Other(error)
        }
    }

    /// Sorts a platform error into `WouldBlock` or `Other`, keeping the error
    /// itself in the second case.
    pub fn classify(error: std::io::Error) -> (fault: ReadFault)
        ensures
            fault == ReadFault::of(error),
    {
        if kind_is_would_block(&error) {
            ReadFault::WouldBlock
        } else {
            ReadFault::Other(error)
        }
    }
}

/// What the platform answers to one read: the number of bytes it wrote into
/// the buffer, or its error.
pub type RawRead = Result<usize, std::io::Error>;

/// One read attempt with its error classified.
pub type ReadAttempt = Result<usize, ReadFault>;

/// The result of the whole primitive: a count of bytes, or a terminal failure.
pub type ReadResult = Result<usize, ReadStreamError>;

/// The attempt that stands for the platform's answer `raw`.
pub open spec fn attempt_of(raw: RawRead) -> ReadAttempt {
    match raw {
        Ok(count) => Ok(count),
        Err(error) => Err(ReadFault::of(error)),
    }
}

/// What the caller does after one read attempt.
#[derive(Debug)]
pub enum ReadStep {
    /// Nothing was ready: read again, at once.
    Retry,
    /// The primitive is finished and returns this result.
    Done(ReadResult),
}

impl ReadStep {
    /// The retry rule. A read of zero bytes means that the stream is closed;
    /// a positive count is the result; "would block" is retried; any other
    /// fault is terminal and forwarded.
    pub open spec fn of(attempt: ReadAttempt) -> ReadStep {
        match attempt {
            Ok(count) => if count == 0 {
                ReadStep::Done(Err(ReadStreamError::ConnectionClosed))
            } else {
                ReadStep::Done(Ok(count))
            },
            Err(ReadFault::WouldBlock) => ReadStep::Retry,
            Err(ReadFault::Other(error)) => ReadStep::Done(Err(ReadStreamError::IoError(error))),
        }
    }

    /// Applies the retry rule to an attempt whose error is classified.
    pub fn decide(attempt: ReadAttempt) -> (step: ReadStep)
        ensures
            step == ReadStep::of(attempt),
    {
        match attempt {
            Ok(count) => {
                if count == 0 {
                    ReadStep::Done(Err(ReadStreamError::ConnectionClosed))
                } else {
                    ReadStep::Done(Ok(count))
                }
            },
            Err(ReadFault::WouldBlock) => ReadStep::Retry,
            Err(ReadFault::Other(error)) => ReadStep::Done(Err(ReadStreamError::IoError(error))),
        }
    }

    /// Decides what follows one read into a buffer of `capacity` bytes, to
    /// which the platform answered `raw`.
    ///
    /// The buffer holds at least one byte: a read into an empty buffer
    /// reports zero bytes, which could not be told from a closed stream. The
    /// platform never reports more bytes than the buffer holds.
    pub fn after(raw: RawRead, capacity: usize) -> (step: ReadStep)
        requires
            capacity > 0,
            raw matches Ok(count) ==> count <= capacity,
        ensures
            step == ReadStep::of(attempt_of(raw)),
            step matches ReadStep::Done(Ok(count)) ==> 1 <= count <= capacity,
            step matches ReadStep::Done(Err(failure)) ==> failure.wf(),
    {
        match raw {
            Ok(count) => ReadStep::decide(Ok(count)),
            Err(error) => ReadStep::decide(Err(ReadFault::classify(error))),
        }
    }
}

} // verus!
