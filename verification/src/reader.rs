//! The blocking reader.

use vstd::prelude::*;
use vstd::std_specs::cmp::{PartialEqSpec, PartialEqSpecImpl};
use crate::accumulator::Accumulator;
use crate::record::{after, after_run, attempt_of_read, lemma_run_push, peek_of, Attempt, Peek};
use crate::source::Source;

verus! {

/// Wraps a reader and calculates the hash digest on the fly.
///
/// The hash is fed exactly the bytes that reads through this wrapper
/// deliver, one chunk per successful read and in their order. Bytes that
/// were only peeked at, or given up with `consume`, are not among them.
#[derive(Clone)]
pub struct Reader<R, H> {
    inner: Source<R>,
    hash: Accumulator<H>,
}

impl<R, H> Reader<R, H> {
    /// The wrapped reader, opaque to the verifier.
    pub closed spec fn stream(&self) -> R {
        self.inner.stream()
    }

    /// The hash with its record.
    pub closed spec fn hash(&self) -> Accumulator<H> {
        self.hash
    }

    /// The reads made of the wrapped reader through this wrapper, oldest
    /// first, each as it returned.
    pub closed spec fn run(&self) -> Seq<Attempt> {
        self.inner.run()
    }

    /// The caller's buffer as the wrapped reader left it at the last read.
    pub closed spec fn buffer_left(&self) -> Seq<u8> {
        self.inner.left()
    }

    /// The looks at the buffered bytes of the wrapped reader made through
    /// this wrapper, oldest first, each as it returned.
    pub closed spec fn peeks(&self) -> Seq<Peek> {
        self.inner.peeks()
    }

    /// How many bytes of the wrapped reader have been given up through this
    /// wrapper with `consume`, all told.
    pub closed spec fn given_up(&self) -> nat {
        self.inner.given_up()
    }

    /// How many bytes shown by the last `fill_buf` may still be consumed.
    pub closed spec fn peeked(&self) -> nat {
        self.inner.peeked()
    }

    /// The chunks fed to the hash through this wrapper, oldest first.
    pub open spec fn fed(&self) -> Seq<Seq<u8>> {
        self.hash().fed()
    }

    /// All bytes fed to the hash through this wrapper, in order.
    pub open spec fn absorbed(&self) -> Seq<u8> {
        self.hash().absorbed()
    }

    /// Nothing has been asked of the wrapped reader through this wrapper, and
    /// nothing has been fed to the hash.
    pub open spec fn unread(&self) -> bool {
        &&& self.run() == Seq::<Attempt>::empty()
        &&& self.peeks() == Seq::<Peek>::empty()
        &&& self.given_up() == 0
        &&& self.peeked() == 0
        &&& self.fed() == Seq::<Seq<u8>>::empty()
    }

    /// The hash has been fed what the reads delivered, chunk for chunk: no
    /// more and no less. Every reader is made so, and every operation keeps
    /// it so.
    pub open spec fn in_step(&self) -> bool {
        self.fed() == after_run(Seq::empty(), self.run())
    }
}

impl<R: PartialEq, H: PartialEq> PartialEq for Reader<R, H> {
    /// Two readers are equal when the wrapped readers are and the hashes
    /// are.
    fn eq(&self, other: &Self) -> (r: bool) {
        self.inner == other.inner && self.hash == other.hash
    }
}

impl<R: PartialEq, H: PartialEq> PartialEqSpecImpl for Reader<R, H> {
    open spec fn obeys_eq_spec() -> bool {
        R::obeys_eq_spec() && H::obeys_eq_spec()
    }

    open spec fn eq_spec(&self, other: &Self) -> bool {
        self.stream().eq_spec(&other.stream()) && self.hash().state().eq_spec(&other.hash().state())
    }
}

impl<R: Eq, H: Eq> Eq for Reader<R, H> {

}

impl<R: std::io::Read, H: chksum_core::Hash> Reader<R, H> {
    /// Creates new [`Reader`] whose hash starts in the algorithm's default
    /// state. Nothing is read.
    pub fn new(inner: R) -> (reader: Self)
        ensures
            reader.stream() == inner,
            call_ensures(<H as core::default::Default>::default, (), reader.hash().state()),
            reader.unread(),
            reader.in_step(),
    {
        Reader { inner: Source::new(inner), hash: Accumulator::new() }
    }

    /// Creates new [`Reader`] with provided hash. Nothing is read.
    pub fn with_hash(inner: R, hash: H) -> (reader: Self)
        ensures
            reader.stream() == inner,
            reader.hash().state() == hash,
            reader.unread(),
            reader.in_step(),
    {
        Reader { inner: Source::new(inner), hash: Accumulator::resume(hash) }
    }

    /// Unwraps this [`Reader`], returning the underlying reader as the reads
    /// left it. The hash is dropped.
    pub fn into_inner(self) -> (inner: R)
        ensures
            inner == self.stream(),
    {
        self.inner.into_stream()
    }

    /// Returns calculated hash digest.
    ///
    /// Calls `chksum_core::Hash::digest` on the hash as the reads left it.
    /// The algorithm is opaque, so nothing is claimed of the digest.
    #[verifier::external_body]
    pub fn digest<D>(&self) -> (digest: D)
        where H: chksum_core::Hash<Digest = D>,
    {
        self.hash.hash.digest()
    }
}

impl<R: std::io::Read, H: chksum_core::Hash> std::io::Read for Reader<R, H> {
    /// Reads once from the wrapped reader into `buf` and feeds the hash what
    /// was delivered: after `Ok(n)` the first `n` bytes of `buf`, as one
    /// chunk, also when `n` is 0. A failed read leaves the hash as it was.
    /// What is returned is what the wrapped reader returned, the error
    /// unchanged: it is the last entry of the run. The buffer comes back as
    /// the wrapped reader left it. Nothing is peeked at or given up.
    fn read(&mut self, buf: &mut [u8]) -> (r: Result<usize, std::io::Error>)
        ensures
            final(buf)@.len() == old(buf)@.len(),
            r matches Ok(n) ==> n <= final(buf)@.len(),
            final(self).run() == old(self).run().push(attempt_of_read(final(buf)@, r)),
            final(buf)@ == final(self).buffer_left(),
            final(self).peeks() == old(self).peeks(),
            final(self).given_up() == old(self).given_up(),
            final(self).fed() == after(old(self).fed(), attempt_of_read(final(buf)@, r)),
            final(self).absorbed() == old(self).absorbed() + attempt_of_read(final(buf)@, r).bytes(),
            r is Err ==> final(self).hash() == old(self).hash(),
            old(self).in_step() ==> final(self).in_step(),
            final(self).peeked() == 0,
    {
        let outcome = self.inner.read(buf);
        proof {
            lemma_run_push(Seq::empty(), old(self).run(), attempt_of_read(buf@, outcome));
        }
        self.hash.absorb_read(buf, outcome)
    }
}

impl<R: std::io::BufRead, H: chksum_core::Hash> std::io::BufRead for Reader<R, H> {
    /// Looks once at what the wrapped reader has buffered and returns what
    /// that look returned, the slice or the error unchanged: it is the last
    /// entry of the peeks. Nothing is read or given up, and the hash is not
    /// touched: bytes that are only shown are not hashed.
    fn fill_buf(&mut self) -> (r: Result<&[u8], std::io::Error>)
        ensures
            final(self).peeks() == old(self).peeks().push(peek_of(r)),
            final(self).hash() == old(self).hash(),
            final(self).run() == old(self).run(),
            final(self).buffer_left() == old(self).buffer_left(),
            final(self).given_up() == old(self).given_up(),
            old(self).in_step() ==> final(self).in_step(),
            match r {
                Ok(shown) => final(self).peeked() == shown@.len(),
                Err(_) => final(self).peeked() == 0,
            },
    {
        self.inner.fill_buf()
    }

    /// Gives up `amt` of the bytes that `fill_buf` showed, and no others.
    /// Nothing is read or peeked at, and the hash is not touched: bytes that
    /// leave the reader this way are never hashed, so a caller who wants
    /// them in the digest takes them with `read`.
    fn consume(&mut self, amt: usize)
        requires
            amt <= old(self).peeked(),
        ensures
            final(self).given_up() == old(self).given_up() + amt,
            final(self).peeked() == old(self).peeked() - amt,
            final(self).hash() == old(self).hash(),
            final(self).run() == old(self).run(),
            final(self).buffer_left() == old(self).buffer_left(),
            final(self).peeks() == old(self).peeks(),
            old(self).in_step() ==> final(self).in_step(),
    {
        self.inner.consume(amt)
    }
}

/// Creates new [`Reader`].
pub fn new<R: std::io::Read, H: chksum_core::Hash>(inner: R) -> (reader: Reader<R, H>)
    ensures
        reader.stream() == inner,
        call_ensures(<H as core::default::Default>::default, (), reader.hash().state()),
        reader.unread(),
        reader.in_step(),
{
    Reader::new(inner)
}

/// Creates new [`Reader`] with provided hash.
pub fn with_hash<R: std::io::Read, H: chksum_core::Hash>(inner: R, hash: H) -> (reader: Reader<R, H>)
    ensures
        reader.stream() == inner,
        reader.hash().state() == hash,
        reader.unread(),
        reader.in_step(),
{
    Reader::with_hash(inner, hash)
}

} // verus!
