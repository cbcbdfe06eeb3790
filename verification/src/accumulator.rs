//! A hash paired with the record of what it has been fed.

use vstd::prelude::*;
use vstd::std_specs::cmp::{PartialEqSpec, PartialEqSpecImpl};
use crate::record::{after, attempt_of_delivery, attempt_of_read, lemma_after_absorbs, Polled};

verus! {

/// A hash of some algorithm, with a ghost record of every chunk that has been
/// fed to it since it was taken on, and a ghost copy of the hash itself. The
/// copy follows the hash through every update, and the two are equal at all
/// times: nothing but an update can put another hash in its place.
pub struct Accumulator<H> {
    pub(crate) hash: H,
    state: Ghost<H>,
    fed: Ghost<Seq<Seq<u8>>>,
}

impl<H> Accumulator<H> {
    /// The hash value itself, opaque to the verifier.
    pub closed spec fn state(&self) -> H {
        self.state@
    }

    /// The chunks fed so far, one entry per update, oldest first.
    pub closed spec fn fed(&self) -> Seq<Seq<u8>> {
        self.fed@
    }

    /// Everything fed so far as one run of bytes.
    pub open spec fn absorbed(&self) -> Seq<u8> {
        self.fed().flatten()
    }

    #[verifier::type_invariant]
    spec fn state_is_hash(&self) -> bool {
        self.hash == self.state@
    }
}

impl<H: Clone> Clone for Accumulator<H> {
    /// A clone of the hash, with the same record.
    fn clone(&self) -> (copy: Self)
        ensures
            call_ensures(H::clone, (&self.state(),), copy.state()),
            copy.fed() == self.fed(),
    {
        proof {
            use_type_invariant(self);
        }
        let hash = self.hash.clone();
        Accumulator { hash, state: Ghost(hash), fed: Ghost(self.fed@) }
    }
}

impl<H: PartialEq> PartialEq for Accumulator<H> {
    /// Two accumulators are equal when their hashes are.
    fn eq(&self, other: &Self) -> (r: bool) {
        proof {
            use_type_invariant(self);
            use_type_invariant(other);
        }
        self.hash == other.hash
    }
}

impl<H: PartialEq> PartialEqSpecImpl for Accumulator<H> {
    open spec fn obeys_eq_spec() -> bool {
        H::obeys_eq_spec()
    }

    open spec fn eq_spec(&self, other: &Self) -> bool {
        self.state().eq_spec(&other.state())
    }
}

impl<H: Eq> Eq for Accumulator<H> {

}

impl<H: chksum_core::Hash> Accumulator<H> {
    /// A hash in the algorithm's default state, with nothing fed.
    pub fn new() -> (acc: Self)
        ensures
            call_ensures(<H as core::default::Default>::default, (), acc.state()),
            acc.fed() == Seq::<Seq<u8>>::empty(),
    {
        let hash = H::default();
        Accumulator { hash, state: Ghost(hash), fed: Ghost(Seq::empty()) }
    }

    /// Takes on a hash that may already have been fed elsewhere. The record
    /// starts empty: it counts what is fed from here on.
    pub fn resume(hash: H) -> (acc: Self)
        ensures
            acc.state() == hash,
            acc.fed() == Seq::<Seq<u8>>::empty(),
    {
        Accumulator { hash, state: Ghost(hash), fed: Ghost(Seq::empty()) }
    }

    /// Calls `chksum_core::Hash::update` with `data`. The hash is opaque, so
    /// the contract says nothing of its new state but that the ghost copy is
    /// that state; it enters the call in the record, which by this is the
    /// list of chunks passed to `update`.
    #[verifier::external_body]
    fn update(&mut self, data: &[u8])
        ensures
            final(self).fed() == old(self).fed().push(data@),
            final(self).state_is_hash(),
    {
        self.hash.update(data)
    }

    /// Feeds one chunk.
    pub fn absorb(&mut self, data: &[u8])
        ensures
            final(self).fed() == old(self).fed().push(data@),
            final(self).absorbed() == old(self).absorbed() + data@,
    {
        proof {
            self.fed().lemma_flatten_push(data@);
        }
        self.update(data)
    }

    /// Settles a read that left `buf` with this outcome: after `Ok(n)` the
    /// first `n` bytes of `buf` are fed, as one chunk and also when `n` is 0;
    /// after an error nothing is touched. The outcome is handed back as it
    /// came.
    pub fn absorb_read(&mut self, buf: &[u8], outcome: Result<usize, std::io::Error>) -> (r: Result<
        usize,
        std::io::Error,
    >)
        requires
            outcome matches Ok(n) ==> n <= buf@.len(),
        ensures
            r == outcome,
            final(self).fed() == after(old(self).fed(), attempt_of_read(buf@, outcome)),
            final(self).absorbed() == old(self).absorbed() + attempt_of_read(buf@, outcome).bytes(),
            outcome is Err ==> *final(self) == *old(self),
    {
        proof {
            lemma_after_absorbs(self.fed(), attempt_of_read(buf@, outcome));
        }
        match outcome {
            Ok(n) => {
                self.update(&buf[0..n]);
                Ok(n)
            },
            Err(e) => Err(e),
        }
    }

    /// Settles a poll that appended `delivered` to the caller's buffer: when
    /// it succeeded, `delivered` is fed, as one chunk and also when it is
    /// empty; while it is pending and when it failed, nothing is touched.
    /// What the poll came to is handed back as it came.
    pub fn absorb_poll(&mut self, delivered: &[u8], polled: Polled) -> (r: Polled)
        ensures
            r == polled,
            final(self).fed() == after(old(self).fed(), attempt_of_delivery(delivered@, polled)),
            final(self).absorbed() == old(self).absorbed() + attempt_of_delivery(
                delivered@,
                polled,
            ).bytes(),
            !(polled matches Polled::Ready(Ok(_))) ==> *final(self) == *old(self),
    {
        proof {
            lemma_after_absorbs(self.fed(), attempt_of_delivery(delivered@, polled));
        }
        if let Polled::Ready(Ok(_)) = &polled {
            self.update(delivered);
        }
        polled
    }

    /// Gives the hash back as it stands. The record is dropped.
    pub fn into_hash(self) -> (hash: H)
        ensures
            hash == self.state(),
    {
        proof {
            use_type_invariant(&self);
        }
        self.hash
    }
}

} // verus!
