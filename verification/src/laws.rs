//! What holds of whole runs of reads.
//!
//! A run is given by what each of its reads or polls came to: the bytes it
//! delivered, the error it failed with, or that it was not ready. A reader
//! that is in step has settled the run's entries one by one, so what is
//! stated here of `after_run` holds of its hash.

use vstd::prelude::*;
use crate::async_reader::AsyncReader;
use crate::reader::Reader;
use crate::record::{after, after_run, lemma_after_absorbs, lemma_run_push, stream_of, Attempt};

verus! {

/// Order-preserving accumulation: whatever the sizes of the reads, empty
/// ones and failed ones among them, after the run the hash has absorbed what
/// it had before and then exactly the bytes delivered, in their order. That
/// is what it has absorbed when the same bytes are fed to it in one pass.
pub proof fn lemma_run_absorbs_what_it_delivers(fed: Seq<Seq<u8>>, run: Seq<Attempt>)
    ensures
        after_run(fed, run).flatten() == fed.flatten() + stream_of(run),
        after_run(fed, run).flatten() == after(fed, Attempt::Delivered(stream_of(run))).flatten(),
    decreases run.len(),
{
    lemma_after_absorbs(fed, Attempt::Delivered(stream_of(run)));
    if run.len() == 0 {
        assert(fed.flatten() + Seq::<u8>::empty() =~= fed.flatten());
    } else {
        lemma_run_absorbs_what_it_delivers(fed, run.drop_last());
        lemma_after_absorbs(after_run(fed, run.drop_last()), run.last());
        assert((fed.flatten() + stream_of(run.drop_last())) + run.last().bytes() =~= fed.flatten()
            + (stream_of(run.drop_last()) + run.last().bytes()));
    }
}

/// A reader that is in step has had its hash absorb exactly the bytes that
/// its reads delivered, in their order: none missing, none twice, none that
/// a failed read left in the buffer.
pub proof fn lemma_reader_absorbed_is_delivered<R, H>(reader: Reader<R, H>)
    requires
        reader.in_step(),
    ensures
        reader.absorbed() == stream_of(reader.run()),
{
    lemma_run_absorbs_what_it_delivers(Seq::empty(), reader.run());
    assert(Seq::<Seq<u8>>::empty().flatten() + stream_of(reader.run()) =~= stream_of(reader.run()));
}

/// An asynchronous reader that is in step has had its hash absorb exactly
/// the bytes that its polls delivered, in their order.
pub proof fn lemma_async_reader_absorbed_is_delivered<R, H>(reader: AsyncReader<R, H>)
    requires
        reader.in_step(),
    ensures
        reader.absorbed() == stream_of(reader.run()),
{
    lemma_run_absorbs_what_it_delivers(Seq::empty(), reader.run());
    assert(Seq::<Seq<u8>>::empty().flatten() + stream_of(reader.run()) =~= stream_of(reader.run()));
}

/// Two runs that deliver the same bytes, cut up in whatever way, leave the
/// hash with the same bytes absorbed.
pub proof fn lemma_chunking_is_invisible(
    fed: Seq<Seq<u8>>,
    one: Seq<Attempt>,
    other: Seq<Attempt>,
)
    requires
        stream_of(one) == stream_of(other),
    ensures
        after_run(fed, one).flatten() == after_run(fed, other).flatten(),
{
    lemma_run_absorbs_what_it_delivers(fed, one);
    lemma_run_absorbs_what_it_delivers(fed, other);
}

/// No hashing on error: a read that fails, or a poll that fails or is given
/// up while pending, leaves the record as the run before it left it and
/// delivers nothing, so the hash has absorbed exactly what was delivered
/// before.
pub proof fn lemma_failure_feeds_nothing(fed: Seq<Seq<u8>>, run: Seq<Attempt>, attempt: Attempt)
    requires
        !(attempt is Delivered),
    ensures
        after_run(fed, run.push(attempt)) == after_run(fed, run),
        stream_of(run.push(attempt)) == stream_of(run),
        after_run(fed, run.push(attempt)).flatten() == fed.flatten() + stream_of(run),
{
    lemma_run_push(fed, run, attempt);
    lemma_run_absorbs_what_it_delivers(fed, run);
    assert(stream_of(run) + Seq::<u8>::empty() =~= stream_of(run));
}

/// What two runs deliver, one after the other, is what the first delivers
/// followed by what the second delivers.
pub proof fn lemma_stream_of_concat(one: Seq<Attempt>, other: Seq<Attempt>)
    ensures
        stream_of(one + other) == stream_of(one) + stream_of(other),
    decreases other.len(),
{
    if other.len() == 0 {
        assert(one + other =~= one);
        assert(stream_of(one) + Seq::<u8>::empty() =~= stream_of(one));
    } else {
        lemma_stream_of_concat(one, other.drop_last());
        assert((one + other).drop_last() =~= one + other.drop_last());
        assert((stream_of(one) + stream_of(other.drop_last())) + other.last().bytes() =~= stream_of(one)
            + (stream_of(other.drop_last()) + other.last().bytes()));
    }
}

/// Resumed hashing: a hash that had absorbed `prior` before it was wrapped
/// has, after a run, absorbed what a hash that started with nothing has
/// after `prior` and then the bytes of the run were fed to it.
pub proof fn lemma_resumed_run(prior: Seq<u8>, run: Seq<Attempt>)
    ensures
        after_run(seq![prior], run).flatten() == prior + stream_of(run),
        after_run(seq![prior], run).flatten() == after_run(
            Seq::empty(),
            seq![Attempt::Delivered(prior)] + run,
        ).flatten(),
{
    let nothing = Seq::<Seq<u8>>::empty();
    let first = seq![Attempt::Delivered(prior)];
    lemma_run_absorbs_what_it_delivers(seq![prior], run);
    lemma_run_absorbs_what_it_delivers(nothing, first + run);
    seq![prior].lemma_flatten_one_element();
    assert(nothing.flatten() =~= Seq::<u8>::empty());
    lemma_stream_of_concat(first, run);
    lemma_run_push(nothing, Seq::empty(), Attempt::Delivered(prior));
    assert(Seq::<Attempt>::empty().push(Attempt::Delivered(prior)) =~= first);
    assert(stream_of(first) =~= prior);
    assert(Seq::<u8>::empty() + (prior + stream_of(run)) =~= prior + stream_of(run));
}

} // verus!
