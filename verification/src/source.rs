//! The wrapped byte source, with the record of what it has handed over.

use vstd::prelude::*;
use vstd::std_specs::cmp::{PartialEqSpec, PartialEqSpecImpl};
use crate::foreign::filled_bytes;
use crate::record::{attempt_of_poll, attempt_of_read, peek_of, Attempt, Peek, Polled};

verus! {

/// A byte source together with a ghost record of the calls made of it since
/// it was taken on. The source itself is opaque; the record is what the
/// contracts of the readers are stated over. It holds:
///
/// - the run: every read and poll, oldest first, by what it came to;
/// - the caller's buffer as the last read left it, or its filled region as
///   the last poll left it;
/// - the peeks: every look at the buffered bytes, oldest first, by what it
///   showed or the error it failed with;
/// - how many bytes have been given up after a peek, all told;
/// - how many bytes the last peek showed that have not been given up since,
///   so that giving up bytes can be held to what was shown.
#[derive(Clone)]
pub struct Source<R> {
    inner: R,
    run: Ghost<Seq<Attempt>>,
    left: Ghost<Seq<u8>>,
    peeks: Ghost<Seq<Peek>>,
    given_up: Ghost<nat>,
    peeked: Ghost<nat>,
}

impl<R> Source<R> {
    /// The source itself, opaque to the verifier.
    pub closed spec fn stream(&self) -> R {
        self.inner
    }

    /// The reads and polls made so far, oldest first.
    pub closed spec fn run(&self) -> Seq<Attempt> {
        self.run@
    }

    /// The caller's buffer as the last read left it, or its filled region as
    /// the last poll left it.
    pub closed spec fn left(&self) -> Seq<u8> {
        self.left@
    }

    /// The looks at the buffered bytes made so far, oldest first.
    pub closed spec fn peeks(&self) -> Seq<Peek> {
        self.peeks@
    }

    /// How many bytes have been given up after a peek, all told.
    pub closed spec fn given_up(&self) -> nat {
        self.given_up@
    }

    /// How many bytes of the last peek are still there to be given up.
    pub closed spec fn peeked(&self) -> nat {
        self.peeked@
    }

    /// Nothing has been asked of the source yet.
    pub open spec fn untouched(&self) -> bool {
        &&& self.run() == Seq::<Attempt>::empty()
        &&& self.peeks() == Seq::<Peek>::empty()
        &&& self.given_up() == 0
        &&& self.peeked() == 0
    }

    /// Takes on a source without asking anything of it.
    pub fn new(inner: R) -> (source: Self)
        ensures
            source.stream() == inner,
            source.untouched(),
    {
        Source {
            inner,
            run: Ghost(Seq::empty()),
            left: Ghost(Seq::empty()),
            peeks: Ghost(Seq::empty()),
            given_up: Ghost(0),
            peeked: Ghost(0),
        }
    }

    /// Gives the source back as it stands, without asking anything of it.
    pub fn into_stream(self) -> (inner: R)
        ensures
            inner == self.stream(),
    {
        self.inner
    }
}

impl<R: PartialEq> PartialEq for Source<R> {
    /// Two sources are equal when the streams are.
    fn eq(&self, other: &Self) -> (r: bool) {
        self.inner == other.inner
    }
}

impl<R: PartialEq> PartialEqSpecImpl for Source<R> {
    open spec fn obeys_eq_spec() -> bool {
        R::obeys_eq_spec()
    }

    open spec fn eq_spec(&self, other: &Self) -> bool {
        self.stream().eq_spec(&other.stream())
    }
}

impl<R: Eq> Eq for Source<R> {

}

impl<R: std::io::Read> Source<R> {
    /// Calls `std::io::Read::read`. The trait's documentation asks of every
    /// implementation that `Ok(n)` comes with `n <= buf.len()`; that, and that
    /// a slice keeps its length, is all that is claimed of the result. The
    /// call is entered in the record as it returned: after `Ok(n)` the first
    /// `n` bytes of `buf` were handed over, after an error nothing was; and
    /// the buffer is noted as the call left it. A read is no peek and gives
    /// up nothing that was peeked, but it may use up buffered bytes, so
    /// nothing counts as peeked afterwards.
    #[verifier::external_body]
    pub(crate) fn read(&mut self, buf: &mut [u8]) -> (r: Result<usize, std::io::Error>)
        ensures
            final(buf)@.len() == old(buf)@.len(),
            r matches Ok(n) ==> n <= old(buf)@.len(),
            final(self).run() == old(self).run().push(attempt_of_read(final(buf)@, r)),
            final(self).left() == final(buf)@,
            final(self).peeks() == old(self).peeks(),
            final(self).given_up() == old(self).given_up(),
            final(self).peeked() == 0,
    {
        self.inner.read(buf)
    }
}

impl<R: std::io::BufRead> Source<R> {
    /// Calls `std::io::BufRead::fill_buf`. The slice it returns is what the
    /// source has buffered: its length becomes the peeked count, and a failed
    /// call leaves nothing peeked. The call is entered among the peeks as it
    /// returned. Showing bytes hands none over and gives none up, so the rest
    /// of the record stays as it is.
    #[verifier::external_body]
    pub(crate) fn fill_buf(&mut self) -> (r: Result<&[u8], std::io::Error>)
        ensures
            final(self).peeks() == old(self).peeks().push(peek_of(r)),
            final(self).run() == old(self).run(),
            final(self).left() == old(self).left(),
            final(self).given_up() == old(self).given_up(),
            match r {
                Ok(shown) => final(self).peeked() == shown@.len(),
                Err(_) => final(self).peeked() == 0,
            },
    {
        self.inner.fill_buf()
    }

    /// Calls `std::io::BufRead::consume`. Its documentation asks that `amt` be
    /// no more than the number of bytes that `fill_buf` returned, and some
    /// implementations panic otherwise; the precondition keeps to bytes that
    /// were shown and not yet given up. The bytes are counted as given up;
    /// they are not handed over, so the run stays as it is.
    #[verifier::external_body]
    pub(crate) fn consume(&mut self, amt: usize)
        requires
            amt <= old(self).peeked(),
        ensures
            final(self).given_up() == old(self).given_up() + amt,
            final(self).peeked() == old(self).peeked() - amt,
            final(self).run() == old(self).run(),
            final(self).left() == old(self).left(),
            final(self).peeks() == old(self).peeks(),
    {
        self.inner.consume(amt)
    }
}

impl<R: tokio::io::AsyncRead + Unpin> Source<R> {
    /// Calls `tokio::io::AsyncRead::poll_read` on the pinned source and tells
    /// the three outcomes apart. Nothing is claimed of the outcome or of the
    /// buffer. The call is entered in the record as it returned: when it
    /// succeeded, what it handed over is the part of the filled region beyond
    /// what was filled before; while it is pending and when it failed,
    /// nothing was; and the filled region is noted as the call left it.
    #[verifier::external_body]
    pub(crate) fn poll_read(
        &mut self,
        cx: &mut std::task::Context<'_>,
        buf: &mut tokio::io::ReadBuf<'_>,
    ) -> (polled: Polled)
        ensures
            final(self).run() == old(self).run().push(
                attempt_of_poll(filled_bytes(old(buf)), filled_bytes(final(buf)), polled),
            ),
            final(self).left() == filled_bytes(final(buf)),
            final(self).peeks() == old(self).peeks(),
            final(self).given_up() == old(self).given_up(),
            final(self).peeked() == 0,
    {
        match std::pin::Pin::new(&mut self.inner).poll_read(cx, buf) {
            std::task::Poll::Pending => Polled::Pending,
            std::task::Poll::Ready(done) => Polled::Ready(done),
        }
    }
}

} // verus!
