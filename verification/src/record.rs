//! The records that the contracts are stated over.
//!
//! Three things are kept count of. A *run* holds one entry for every read or
//! poll made of a source: what it came to, with the bytes that it handed
//! over or the error that it failed with. The *peeks* of a source hold one
//! entry for every look at what it has buffered. The *fed* record of a hash
//! holds one entry for every chunk that was passed to its update.

use vstd::prelude::*;

verus! {

/// What one poll of a source came to: it is not ready yet, or it is done,
/// with success or with an error.
pub enum Polled {
    Pending,
    Ready(Result<(), std::io::Error>),
}

/// What one read or poll of a source came to, as its caller saw it.
pub enum Attempt {
    /// It succeeded and handed over these bytes; none of them at the end of
    /// the stream or into a buffer without room.
    Delivered(Seq<u8>),
    /// It failed with this error and handed over nothing.
    Failed(std::io::Error),
    /// It was not ready and handed over nothing.
    Pending,
}

impl Attempt {
    /// The bytes handed over; none where there was no success.
    pub open spec fn bytes(self) -> Seq<u8> {
        match self {
            Attempt::Delivered(bytes) => bytes,
            _ => Seq::empty(),
        }
    }
}

/// What one look at the buffered bytes of a source came to.
pub enum Peek {
    /// It showed these bytes, which stay with the source.
    Showed(Seq<u8>),
    /// It failed with this error.
    Failed(std::io::Error),
}

/// What a read came to that returned `outcome`, `buf` being the buffer as the
/// read left it: after `Ok(n)` it delivered the first `n` bytes of `buf`;
/// after an error it failed with that error.
pub open spec fn attempt_of_read(buf: Seq<u8>, outcome: Result<usize, std::io::Error>) -> Attempt {
    match outcome {
        Ok(n) => Attempt::Delivered(buf.subrange(0, n as int)),
        Err(error) => Attempt::Failed(error),
    }
}

/// What a poll appended to a buffer, `before` being its filled region when
/// the poll began and `filled` its filled region when the poll returned: the
/// part of `filled` that lies beyond the length of `before`.
pub open spec fn appended(before: Seq<u8>, filled: Seq<u8>) -> Seq<u8> {
    if before.len() <= filled.len() {
        filled.skip(before.len() as int)
    } else {
        Seq::empty()
    }
}

/// What a poll came to that returned `polled` and appended `delivered` to
/// the caller's buffer: on success it delivered those bytes.
pub open spec fn attempt_of_delivery(delivered: Seq<u8>, polled: Polled) -> Attempt {
    match polled {
        Polled::Ready(Ok(_)) => Attempt::Delivered(delivered),
        Polled::Ready(Err(error)) => Attempt::Failed(error),
        Polled::Pending => Attempt::Pending,
    }
}

/// What a poll came to that returned `polled`, `before` being the filled
/// region of the buffer when the poll began and `filled` the filled region
/// when it returned: on success it delivered what it appended.
pub open spec fn attempt_of_poll(before: Seq<u8>, filled: Seq<u8>, polled: Polled) -> Attempt {
    attempt_of_delivery(appended(before, filled), polled)
}

/// What a look at the buffered bytes came to that returned `outcome`.
pub open spec fn peek_of(outcome: Result<&[u8], std::io::Error>) -> Peek {
    match outcome {
        Ok(shown) => Peek::Showed(shown@),
        Err(error) => Peek::Failed(error),
    }
}

/// The fed record of a hash once an attempt has been settled: one more chunk,
/// which may be empty, after a success; the same record otherwise.
pub open spec fn after(fed: Seq<Seq<u8>>, attempt: Attempt) -> Seq<Seq<u8>> {
    match attempt {
        Attempt::Delivered(bytes) => fed.push(bytes),
        _ => fed,
    }
}

/// The fed record of a hash that started from `fed` and settled every
/// attempt of `run`, first to last.
pub open spec fn after_run(fed: Seq<Seq<u8>>, run: Seq<Attempt>) -> Seq<Seq<u8>>
    decreases run.len(),
{
    if run.len() == 0 {
        fed
    } else {
        after(after_run(fed, run.drop_last()), run.last())
    }
}

/// The bytes that a run handed to its caller, in order.
pub open spec fn stream_of(run: Seq<Attempt>) -> Seq<u8>
    decreases run.len(),
{
    if run.len() == 0 {
        Seq::empty()
    } else {
        stream_of(run.drop_last()) + run.last().bytes()
    }
}

/// Settling an attempt appends its bytes to what the hash has absorbed; where
/// there are none, that stays as it is.
pub proof fn lemma_after_absorbs(fed: Seq<Seq<u8>>, attempt: Attempt)
    ensures
        after(fed, attempt).flatten() == fed.flatten() + attempt.bytes(),
{
    match attempt {
        Attempt::Delivered(bytes) => {
            fed.lemma_flatten_push(bytes);
        },
        _ => {
            assert(fed.flatten() + Seq::<u8>::empty() =~= fed.flatten());
        },
    }
}

/// One more attempt at the end of a run is one more step from where the run
/// had come to.
pub proof fn lemma_run_push(fed: Seq<Seq<u8>>, run: Seq<Attempt>, attempt: Attempt)
    ensures
        after_run(fed, run.push(attempt)) == after(after_run(fed, run), attempt),
        stream_of(run.push(attempt)) == stream_of(run) + attempt.bytes(),
{
    assert(run.push(attempt).drop_last() =~= run);
}

} // verus!
