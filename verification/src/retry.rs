//! A model of the retry loop, and its laws.
//!
//! What a socket answers to the successive reads of the loop is a sequence
//! of platform answers. [`outcome`] says what the loop returns on such a
//! sequence, by the rule of [`ReadStep::of`]; the laws are stated over it.

use vstd::prelude::*;
use crate::read::{attempt_of, would_block, RawRead, ReadResult, ReadStep, ReadStreamError};

verus! {

/// What the retry loop returns when the socket answers its reads with
/// `reads`, in order; `None` when every one of them asked for a retry, so
/// that the loop is still reading.
pub open spec fn outcome(reads: Seq<RawRead>) -> Option<ReadResult>
    decreases reads.len(),
{
    if reads.len() == 0 {
        None
    } else {
        match ReadStep::of(attempt_of(reads.first())) {
            ReadStep::Retry => outcome(reads.drop_first()),
            ReadStep::Done(result) => Some(result),
        }
    }
}

/// The platform answered "would block".
pub open spec fn is_would_block(read: RawRead) -> bool {
    read matches Err(error) && would_block(error)
}

/// The first `n` reads were all answered with "would block".
pub open spec fn blocked_for(reads: Seq<RawRead>, n: int) -> bool {
    &&& 0 <= n <= reads.len()
    &&& forall|j: int| 0 <= j < n ==> is_would_block(#[trigger] reads[j])
}

/// The loop returns at the first read whose answer is no "would block", with
/// what the retry rule makes of that answer; neither the number of retries
/// before it nor anything after it matters.
pub proof fn lemma_first_decisive_read(reads: Seq<RawRead>, n: int)
    requires
        blocked_for(reads, n),
        n < reads.len(),
        !is_would_block(reads[n]),
    ensures
        ReadStep::of(attempt_of(reads[n])) matches ReadStep::Done(result) && outcome(reads)
            == Some(result),
    decreases n,
{
    if n > 0 {
        let rest = reads.drop_first();
        lemma_first_decisive_read(rest, n - 1);
    }
}

/// Data arrives: after any number of "would block" answers, a read that
/// reports `count` bytes, at least one and no more than the buffer holds,
/// makes the loop return exactly that count. Whatever the peer has sent
/// beyond that count is left for a later call.
pub proof fn law_data_is_returned(reads: Seq<RawRead>, n: int, count: usize, capacity: usize)
    requires
        blocked_for(reads, n),
        n < reads.len(),
        reads[n] == Ok::<usize, std::io::Error>(count),
        1 <= count <= capacity,
    ensures
        outcome(reads) == Some(Ok::<usize, ReadStreamError>(count)),
{
    lemma_first_decisive_read(reads, n);
}

/// The peer closes: after any number of "would block" answers, a read of
/// zero bytes makes the loop return `ConnectionClosed`, at that read.
pub proof fn law_close_is_reported(reads: Seq<RawRead>, n: int)
    requires
        blocked_for(reads, n),
        n < reads.len(),
        reads[n] == Ok::<usize, std::io::Error>(0),
    ensures
        outcome(reads) == Some(Err::<usize, ReadStreamError>(ReadStreamError::ConnectionClosed)),
{
    lemma_first_decisive_read(reads, n);
}

/// An error other than "would block" is terminal at its first occurrence
/// and is forwarded as it came.
pub proof fn law_error_is_forwarded(reads: Seq<RawRead>, n: int, error: std::io::Error)
    requires
        blocked_for(reads, n),
        n < reads.len(),
        reads[n] == Err::<usize, std::io::Error>(error),
        !would_block(error),
    ensures
        outcome(reads) == Some(Err::<usize, ReadStreamError>(ReadStreamError::IoError(error))),
{
    lemma_first_decisive_read(reads, n);
}

/// While the socket only answers "would block", the loop does not return.
pub proof fn law_would_block_is_retried(reads: Seq<RawRead>)
    requires
        blocked_for(reads, reads.len() as int),
    ensures
        outcome(reads) is None,
    decreases reads.len(),
{
    if reads.len() > 0 {
        let rest = reads.drop_first();
        law_would_block_is_retried(rest);
    }
}

/// When the loop returns, it returns because of one read whose answer was no
/// "would block", which the answer to every read before it was: data, a
/// close, or another error. The law gives the position of that read.
pub proof fn law_return_has_a_cause(reads: Seq<RawRead>) -> (n: int)
    requires
        outcome(reads) is Some,
    ensures
        blocked_for(reads, n),
        n < reads.len(),
        !is_would_block(reads[n]),
        ReadStep::of(attempt_of(reads[n])) == ReadStep::Done(outcome(reads)->Some_0),
    decreases reads.len(),
{
    if is_would_block(reads[0]) {
        let rest = reads.drop_first();
        let m = law_return_has_a_cause(rest);
        assert forall|j: int| 0 <= j < m + 1 implies is_would_block(#[trigger] reads[j]) by {
            if j > 0 {
                assert(reads[j] == rest[j - 1]);
            }
        }
        m + 1
    } else {
        0
    }
}

/// What the loop returns is never a count of zero, never more than the
/// buffer holds (given that no read reports more), and never a "would block"
/// in the dress of a failure.
pub proof fn law_result_is_terminal(reads: Seq<RawRead>, capacity: usize)
    requires
        forall|j: int|
            0 <= j < reads.len() ==> (#[trigger] reads[j] matches Ok(count) ==> count <= capacity),
    ensures
        outcome(reads) matches Some(Ok(count)) ==> 1 <= count <= capacity,
        outcome(reads) matches Some(Err(failure)) ==> failure.wf(),
{
    if outcome(reads) is Some {
        let n = law_return_has_a_cause(reads);
    }
}

} // verus!
