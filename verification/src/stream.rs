//! The two ends of a sample stream, each with the history of what has passed
//! through it.
//!
//! An `rtrb` endpoint has no view of its own: what it holds lives in memory
//! shared with the other end. What this library can say is what it has taken
//! from a consumer and what it has handed to a producer, so each endpoint is
//! wrapped with that history. A history is kept by this module alone: it
//! grows only when a reserved chunk is committed through `commit_read` or
//! `commit_write`, and by exactly what that chunk holds.
use vstd::prelude::*;

use crate::ring::{consumer_slots, read_chunk_items, write_chunk_items};

verus! {

/// The samples that have passed through one end of a stream, in order, and
/// what the end's latest reservation reported. Only committing a chunk through
/// this module changes the samples, and only reserving one through this module
/// changes the report.
pub struct History {
    items: Ghost<Seq<u32>>,
    last: Ghost<Option<usize>>,
}

impl View for History {
    type V = Seq<u32>;

    closed spec fn view(&self) -> Seq<u32> {
        self.items@
    }
}

impl History {
    /// What the end's latest reservation reported: the number of samples or
    /// free slots it found, if it failed; `None` if it succeeded or none has
    /// been made.
    pub closed spec fn last_report(&self) -> Option<usize> {
        self.last@
    }

    fn empty() -> (h: Self)
        ensures
            h@ == Seq::<u32>::empty(),
            h.last_report() is None,
    {
        History { items: Ghost(Seq::empty()), last: Ghost(None) }
    }
}

/// The count that a reservation's error reports, or `None` if it succeeded.
pub open spec fn report_of<T>(reservation: Result<T, usize>) -> Option<usize> {
    match reservation {
        Ok(_) => None,
        Err(count) => Some(count),
    }
}

/// The reading end of a sample stream.
pub struct SampleConsumer {
    inner: rtrb::Consumer<u32>,
    taken: History,
}

/// The writing end of a sample stream.
pub struct SampleProducer {
    inner: rtrb::Producer<u32>,
    given: History,
}

impl View for SampleConsumer {
    type V = Seq<u32>;

    /// The samples taken from the stream through this end so far, in order.
    closed spec fn view(&self) -> Seq<u32> {
        self.taken@
    }
}

impl View for SampleProducer {
    type V = Seq<u32>;

    /// The samples handed to the stream through this end so far, in order.
    closed spec fn view(&self) -> Seq<u32> {
        self.given@
    }
}

impl SampleConsumer {
    /// What this end's latest reservation reported (see `History::last_report`).
    pub closed spec fn last_report(&self) -> Option<usize> {
        self.taken.last_report()
    }

    /// The reading end of the ring buffer that this wraps.
    pub closed spec fn endpoint(&self) -> rtrb::Consumer<u32> {
        self.inner
    }

    /// Wraps the reading end of a ring buffer; nothing has been taken yet.
    pub fn new(inner: rtrb::Consumer<u32>) -> (c: Self)
        ensures
            c@ == Seq::<u32>::empty(),
            c.endpoint() == inner,
            c.last_report() is None,
    {
        SampleConsumer { inner, taken: History::empty() }
    }

    /// The number of samples readable now; it depends on the writing end.
    pub fn available(&self) -> usize {
        consumer_slots(&self.inner)
    }

    /// The reading end of the ring buffer, given back.
    pub fn into_inner(self) -> (inner: rtrb::Consumer<u32>)
        ensures
            inner == self.endpoint(),
    {
        self.inner
    }

    /// The ring buffer's reading end, to reserve chunks from, and the history,
    /// to commit them to; what becomes of each is what becomes of this end.
    pub(crate) fn parts(&mut self) -> (parts: (&mut rtrb::Consumer<u32>, &mut History))
        ensures
            parts.1@ == old(self)@,
            parts.1.last_report() == old(self).last_report(),
            final(self)@ == final(parts.1)@,
            final(self).last_report() == final(parts.1).last_report(),
    {
        (&mut self.inner, &mut self.taken)
    }
}

impl SampleProducer {
    /// What this end's latest reservation reported (see `History::last_report`).
    pub closed spec fn last_report(&self) -> Option<usize> {
        self.given.last_report()
    }

    /// The writing end of the ring buffer that this wraps.
    pub closed spec fn endpoint(&self) -> rtrb::Producer<u32> {
        self.inner
    }

    /// Wraps the writing end of a ring buffer; nothing has been handed over yet.
    pub fn new(inner: rtrb::Producer<u32>) -> (p: Self)
        ensures
            p@ == Seq::<u32>::empty(),
            p.endpoint() == inner,
            p.last_report() is None,
    {
        SampleProducer { inner, given: History::empty() }
    }

    /// The writing end of the ring buffer, given back.
    pub fn into_inner(self) -> (inner: rtrb::Producer<u32>)
        ensures
            inner == self.endpoint(),
    {
        self.inner
    }

    /// The ring buffer's writing end, to reserve chunks from, and the history,
    /// to commit them to; what becomes of each is what becomes of this end.
    pub(crate) fn parts(&mut self) -> (parts: (&mut rtrb::Producer<u32>, &mut History))
        ensures
            parts.1@ == old(self)@,
            parts.1.last_report() == old(self).last_report(),
            final(self)@ == final(parts.1)@,
            final(self).last_report() == final(parts.1).last_report(),
    {
        (&mut self.inner, &mut self.given)
    }
}

/// `ReadChunk::commit_all`: releases the reserved slots to the producer. What
/// the consumer reads next lies in memory shared with the producer, so nothing
/// is stated of it.
#[verifier::external_body]
fn read_chunk_commit(chunk: rtrb::chunks::ReadChunk<'_, u32>) {
    chunk.commit_all()
}

/// `WriteChunk::commit_all`: makes the reserved slots, with what they hold,
/// readable by the consumer. That memory is shared with the consumer, so
/// nothing is stated of it.
#[verifier::external_body]
fn write_chunk_commit(chunk: rtrb::chunks::WriteChunk<'_, u32>) {
    chunk.commit_all()
}

/// `Consumer::read_chunk`: reserves the next `n` readable samples. It succeeds
/// exactly when `n` samples are readable at the moment of the call, which
/// depends on the producer's side, and so always for `n == 0`. The chunk then
/// holds `n` samples; otherwise the error `TooFewSlots` reports how many
/// samples were readable, fewer than `n`.
#[verifier::external_body]
fn consumer_read_chunk<'a>(consumer: &'a mut rtrb::Consumer<u32>, n: usize) -> (r: Result<rtrb::chunks::ReadChunk<'a, u32>, usize>)
    ensures
        r matches Ok(chunk) ==> read_chunk_items(chunk).len() == n,
        r matches Err(readable) ==> readable < n,
        n == 0 ==> r is Ok,
{
    match consumer.read_chunk(n) {
        Ok(chunk) => Ok(chunk),
        Err(rtrb::chunks::ChunkError::TooFewSlots(readable)) => Err(readable),
    }
}

/// `Producer::write_chunk`: reserves the next `n` free slots, each holding
/// `u32::default()`, that is 0. It succeeds exactly when `n` slots are free at
/// the moment of the call, which depends on the consumer's side, and so always
/// for `n == 0`; otherwise the error `TooFewSlots` reports how many slots were
/// free, fewer than `n`.
#[verifier::external_body]
fn producer_write_chunk<'a>(producer: &'a mut rtrb::Producer<u32>, n: usize) -> (r: Result<rtrb::chunks::WriteChunk<'a, u32>, usize>)
    ensures
        r matches Ok(chunk) ==> write_chunk_items(chunk) == Seq::new(n as nat, |i: int| 0u32),
        r matches Err(free) ==> free < n,
        n == 0 ==> r is Ok,
{
    match producer.write_chunk(n) {
        Ok(chunk) => Ok(chunk),
        Err(rtrb::chunks::ChunkError::TooFewSlots(free)) => Err(free),
    }
}

/// Reserves the next `n` readable samples of `source` and records in `taken`
/// what the reservation reported.
pub(crate) fn reserve_read<'a>(source: &'a mut rtrb::Consumer<u32>, taken: &mut History, n: usize) -> (r: Result<rtrb::chunks::ReadChunk<'a, u32>, usize>)
    ensures
        r matches Ok(chunk) ==> read_chunk_items(chunk).len() == n,
        r matches Err(readable) ==> readable < n,
        n == 0 ==> r is Ok,
        final(taken)@ == old(taken)@,
        final(taken).last_report() == report_of(r),
{
    let r = consumer_read_chunk(source, n);
    proof {
        taken.last@ = report_of(r);
    }
    r
}

/// Reserves the next `n` free slots of `sink` and records in `given` what the
/// reservation reported.
pub(crate) fn reserve_write<'a>(sink: &'a mut rtrb::Producer<u32>, given: &mut History, n: usize) -> (r: Result<rtrb::chunks::WriteChunk<'a, u32>, usize>)
    ensures
        r matches Ok(chunk) ==> write_chunk_items(chunk) == Seq::new(n as nat, |i: int| 0u32),
        r matches Err(free) ==> free < n,
        n == 0 ==> r is Ok,
        final(given)@ == old(given)@,
        final(given).last_report() == report_of(r),
{
    let r = producer_write_chunk(sink, n);
    proof {
        given.last@ = report_of(r);
    }
    r
}

/// Commits a reserved read chunk, releasing its slots to the producer, and
/// records its samples as taken.
pub(crate) fn commit_read(taken: &mut History, chunk: rtrb::chunks::ReadChunk<'_, u32>)
    ensures
        final(taken)@ == old(taken)@ + read_chunk_items(chunk),
        final(taken).last_report() == old(taken).last_report(),
{
    let ghost items = read_chunk_items(chunk);
    read_chunk_commit(chunk);
    proof {
        taken.items@ = taken.items@ + items;
    }
}

/// Commits a reserved write chunk, making what it holds readable by the
/// consumer, and records those samples as handed over.
pub(crate) fn commit_write(given: &mut History, chunk: rtrb::chunks::WriteChunk<'_, u32>)
    ensures
        final(given)@ == old(given)@ + write_chunk_items(chunk),
        final(given).last_report() == old(given).last_report(),
{
    let ghost items = write_chunk_items(chunk);
    write_chunk_commit(chunk);
    proof {
        given.items@ = given.items@ + items;
    }
}

} // verus!
