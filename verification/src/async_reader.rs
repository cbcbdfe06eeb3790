//! The polled reader.

use vstd::prelude::*;
use vstd::std_specs::cmp::{PartialEqSpec, PartialEqSpecImpl};
use crate::accumulator::Accumulator;
use crate::foreign::{filled, filled_bytes};
use crate::record::{after, after_run, appended, attempt_of_poll, lemma_run_push, Attempt, Polled};
use crate::source::Source;

verus! {

/// Wraps a reader and calculates the hash digest on the fly.
///
/// After each poll that succeeds, the hash is fed the bytes that the poll
/// appended to the caller's buffer, before the result is handed on. Bytes
/// that the buffer held when it came in are not fed again.
#[derive(Clone)]
pub struct AsyncReader<R, H> {
    inner: Source<R>,
    hash: Accumulator<H>,
}

impl<R, H> AsyncReader<R, H> {
    /// The wrapped reader, opaque to the verifier.
    pub closed spec fn stream(&self) -> R {
        self.inner.stream()
    }

    /// The hash with its record.
    pub closed spec fn hash(&self) -> Accumulator<H> {
        self.hash
    }

    /// The polls made of the wrapped reader through this wrapper, oldest
    /// first, each as it returned.
    pub closed spec fn run(&self) -> Seq<Attempt> {
        self.inner.run()
    }

    /// The filled region of the caller's buffer as the wrapped reader left
    /// it at the last poll.
    pub closed spec fn filled_left(&self) -> Seq<u8> {
        self.inner.left()
    }

    /// The chunks fed to the hash through this wrapper, oldest first.
    pub open spec fn fed(&self) -> Seq<Seq<u8>> {
        self.hash().fed()
    }

    /// All bytes fed to the hash through this wrapper, in order.
    pub open spec fn absorbed(&self) -> Seq<u8> {
        self.hash().absorbed()
    }

    /// Nothing has been asked of the wrapped reader through this wrapper, and
    /// nothing has been fed to the hash.
    pub open spec fn unread(&self) -> bool {
        &&& self.run() == Seq::<Attempt>::empty()
        &&& self.fed() == Seq::<Seq<u8>>::empty()
    }

    /// The hash has been fed what the polls delivered, chunk for chunk: no
    /// more and no less. Every reader is made so, and every poll keeps it
    /// so.
    pub open spec fn in_step(&self) -> bool {
        self.fed() == after_run(Seq::empty(), self.run())
    }
}

impl<R: PartialEq, H: PartialEq> PartialEq for AsyncReader<R, H> {
    /// Two readers are equal when the wrapped readers are and the hashes
    /// are.
    fn eq(&self, other: &Self) -> (r: bool) {
        self.inner == other.inner && self.hash == other.hash
    }
}

impl<R: PartialEq, H: PartialEq> PartialEqSpecImpl for AsyncReader<R, H> {
    open spec fn obeys_eq_spec() -> bool {
        R::obeys_eq_spec() && H::obeys_eq_spec()
    }

    open spec fn eq_spec(&self, other: &Self) -> bool {
        self.stream().eq_spec(&other.stream()) && self.hash().state().eq_spec(&other.hash().state())
    }
}

impl<R: Eq, H: Eq> Eq for AsyncReader<R, H> {

}

impl<R: tokio::io::AsyncReadExt, H: chksum_core::Hash> AsyncReader<R, H> {
    /// Creates new [`AsyncReader`] whose hash starts in the algorithm's
    /// default state. Nothing is read.
    pub fn new(inner: R) -> (reader: Self)
        ensures
            reader.stream() == inner,
            call_ensures(<H as core::default::Default>::default, (), reader.hash().state()),
            reader.unread(),
            reader.in_step(),
    {
        AsyncReader { inner: Source::new(inner), hash: Accumulator::new() }
    }

    /// Creates new [`AsyncReader`] with provided hash. Nothing is read.
    pub fn with_hash(inner: R, hash: H) -> (reader: Self)
        ensures
            reader.stream() == inner,
            reader.hash().state() == hash,
            reader.unread(),
            reader.in_step(),
    {
        AsyncReader { inner: Source::new(inner), hash: Accumulator::resume(hash) }
    }

    /// Unwraps this [`AsyncReader`], returning the underlying reader as the
    /// polls left it. The hash is dropped.
    pub fn into_inner(self) -> (inner: R)
        ensures
            inner == self.stream(),
    {
        self.inner.into_stream()
    }

    /// Returns calculated hash digest.
    ///
    /// Calls `chksum_core::Hash::digest` on the hash as the polls left it.
    /// The algorithm is opaque, so nothing is claimed of the digest.
    #[verifier::external_body]
    pub fn digest<D>(&self) -> (digest: D)
        where H: chksum_core::Hash<Digest = D>,
    {
        self.hash.hash.digest()
    }
}

impl<R: tokio::io::AsyncRead + Unpin, H: chksum_core::Hash> AsyncReader<R, H> {
    /// Polls the wrapped reader once. When the poll succeeded, the bytes that
    /// it appended to the filled region of `buf` are fed to the hash, as one
    /// chunk and also when there are none, before the result is handed on.
    /// While the poll is pending, and when it failed, the hash is left as it
    /// was: a read that is given up while pending has fed nothing. What is
    /// returned is what the wrapped reader returned, the error unchanged: it
    /// is the last entry of the run. The buffer comes back as the wrapped
    /// reader left it.
    pub fn poll_read(
        &mut self,
        cx: &mut std::task::Context<'_>,
        buf: &mut tokio::io::ReadBuf<'_>,
    ) -> (polled: Polled)
        ensures
            final(self).run() == old(self).run().push(
                attempt_of_poll(filled_bytes(old(buf)), filled_bytes(final(buf)), polled),
            ),
            filled_bytes(final(buf)) == final(self).filled_left(),
            final(self).fed() == after(
                old(self).fed(),
                attempt_of_poll(filled_bytes(old(buf)), filled_bytes(final(buf)), polled),
            ),
            final(self).absorbed() == old(self).absorbed() + attempt_of_poll(
                filled_bytes(old(buf)),
                filled_bytes(final(buf)),
                polled,
            ).bytes(),
            !(polled matches Polled::Ready(Ok(_))) ==> final(self).hash() == old(self).hash(),
            old(self).in_step() ==> final(self).in_step(),
    {
        let before = filled(buf).len();
        let polled = self.inner.poll_read(cx, buf);
        let all = filled(buf);
        let delivered = if before <= all.len() {
            vstd::slice::slice_subrange(all, before, all.len())
        } else {
            vstd::slice::slice_subrange(all, 0, 0)
        };
        proof {
            assert(delivered@ =~= appended(filled_bytes(old(buf)), filled_bytes(buf)));
            lemma_run_push(
                Seq::empty(),
                old(self).run(),
                attempt_of_poll(filled_bytes(old(buf)), filled_bytes(buf), polled),
            );
        }
        self.hash.absorb_poll(delivered, polled)
    }
}

/// Calls `std::pin::Pin::get_mut`, which hands out the reference that the pin
/// holds. The pin is opaque, so nothing is claimed of the reference.
#[verifier::external_body]
fn unpinned<'a, R: tokio::io::AsyncRead + Unpin, H: chksum_core::Hash + Unpin>(
    pinned: std::pin::Pin<&'a mut AsyncReader<R, H>>,
) -> (reader: &'a mut AsyncReader<R, H>) {
    pinned.get_mut()
}

/// Writes what a poll came to as a `std::task::Poll`, variant for variant.
#[verifier::external_body]
fn into_poll(polled: Polled) -> (poll: std::task::Poll<Result<(), std::io::Error>>) {
    match polled {
        Polled::Pending => std::task::Poll::Pending,
        Polled::Ready(done) => std::task::Poll::Ready(done),
    }
}

impl<R: tokio::io::AsyncRead + Unpin, H: chksum_core::Hash + Unpin> tokio::io::AsyncRead for AsyncReader<R, H> {
    /// The poll of [`AsyncReader::poll_read`], for a pinned reader: that
    /// method is called once on the reader that the pin holds, and what it
    /// returns is handed on, variant for variant. A pin is opaque here, so
    /// what becomes of the reader under it cannot be written down on this
    /// method; it is all stated on the one that it calls.
    fn poll_read(
        self: std::pin::Pin<&mut Self>,
        cx: &mut std::task::Context<'_>,
        buf: &mut tokio::io::ReadBuf<'_>,
    ) -> std::task::Poll<Result<(), std::io::Error>> {
        let reader = unpinned(self);
        into_poll(reader.poll_read(cx, buf))
    }
}

/// Creates new [`AsyncReader`].
pub fn async_new<R: tokio::io::AsyncReadExt, H: chksum_core::Hash>(inner: R) -> (reader: AsyncReader<R, H>)
    ensures
        reader.stream() == inner,
        call_ensures(<H as core::default::Default>::default, (), reader.hash().state()),
        reader.unread(),
        reader.in_step(),
{
    AsyncReader::new(inner)
}

/// Creates new [`AsyncReader`] with provided hash.
pub fn async_with_hash<R: tokio::io::AsyncReadExt, H: chksum_core::Hash>(
    inner: R,
    hash: H,
) -> (reader: AsyncReader<R, H>)
    ensures
        reader.stream() == inner,
        reader.hash().state() == hash,
        reader.unread(),
        reader.in_step(),
{
    AsyncReader::with_hash(inner, hash)
}

} // verus!
