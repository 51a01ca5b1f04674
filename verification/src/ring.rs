//! The parts of `rtrb`'s single-producer single-consumer ring buffer that the
//! processors use, with what is assumed of them.
//!
//! Samples travel through the buffers as `u32` values: the IEEE-754 bit
//! pattern of each `f32` sample, so that no floating-point value is needed to
//! move audio around.
//!
//! A `Producer` or `Consumer` has no view here: what it holds lives in memory
//! shared with the other end, which may run on another thread. A reserved
//! chunk, by contrast, owns its slots until it is committed, so its contents
//! are named.
use vstd::prelude::*;

verus! {

#[verifier::external_type_specification]
#[verifier::external_body]
#[verifier::reject_recursive_types(T)]
pub struct ExConsumer<T>(rtrb::Consumer<T>);

#[verifier::external_type_specification]
#[verifier::external_body]
#[verifier::reject_recursive_types(T)]
pub struct ExProducer<T>(rtrb::Producer<T>);

#[verifier::external_type_specification]
#[verifier::external_body]
#[verifier::reject_recursive_types(T)]
pub struct ExReadChunk<'a, T>(rtrb::chunks::ReadChunk<'a, T>);

#[verifier::external_type_specification]
#[verifier::external_body]
#[verifier::reject_recursive_types(T)]
pub struct ExWriteChunk<'a, T>(rtrb::chunks::WriteChunk<'a, T>);

/// The samples in the slots that a read chunk has reserved, in reading order.
pub uninterp spec fn read_chunk_items(chunk: rtrb::chunks::ReadChunk<u32>) -> Seq<u32>;

/// The samples in the slots that a write chunk has reserved, in writing order.
pub uninterp spec fn write_chunk_items(chunk: rtrb::chunks::WriteChunk<u32>) -> Seq<u32>;

/// `ReadChunk::as_slices`: the reserved samples as two slices, which together
/// hold them in reading order.
#[verifier::external_body]
pub(crate) fn read_chunk_slices<'b, 'a>(chunk: &'b rtrb::chunks::ReadChunk<'a, u32>) -> (r: (&'b [u32], &'b [u32]))
    ensures
        r.0@ + r.1@ == read_chunk_items(*chunk),
{
    chunk.as_slices()
}

/// `WriteChunk::as_mut_slices`: the reserved slots as two mutable slices,
/// which together hold them in writing order; what is written through them is
/// what the chunk holds afterwards.
#[verifier::external_body]
pub(crate) fn write_chunk_slices<'b, 'a>(chunk: &'b mut rtrb::chunks::WriteChunk<'a, u32>) -> (r: (&'b mut [u32], &'b mut [u32]))
    ensures
        r.0@ + r.1@ == write_chunk_items(*old(chunk)),
        write_chunk_items(*final(chunk)) == final(r.0)@ + final(r.1)@,
{
    chunk.as_mut_slices()
}

/// `Consumer::slots`: the number of samples readable at the moment of the
/// call. It depends on the producer's side, so nothing is stated of it.
#[verifier::external_body]
pub(crate) fn consumer_slots(consumer: &rtrb::Consumer<u32>) -> (n: usize) {
    consumer.slots()
}

/// Copies `src` into `dst`, sample by sample.
pub(crate) fn copy_samples(dst: &mut [u32], src: &[u32])
    requires
        old(dst)@.len() == src@.len(),
    ensures
        final(dst)@ == src@,
{
    let n = src.len();
    let mut i: usize = 0;
    while i < n
        invariant
            n == src@.len(),
            dst@.len() == n,
            i <= n,
            forall|j: int| 0 <= j < i ==> dst@[j] == src@[j],
        decreases n - i,
    {
        dst[i] = src[i];
        i = i + 1;
    }
    assert(dst@ =~= src@);
}

} // verus!

verus! {

/// Copies the samples of a reserved read chunk into a reserved write chunk of
/// the same size, whatever way either chunk is split where its slots wrap
/// around the end of its buffer. Every sample is copied, those past a wrap
/// included: copying only each chunk's first slice would fail when the two
/// first slices differ in length, and would leave the wrapped part at 0.
pub fn copy_chunk(src: &rtrb::chunks::ReadChunk<'_, u32>, dst: &mut rtrb::chunks::WriteChunk<'_, u32>)
    requires
        read_chunk_items(*src).len() == write_chunk_items(*old(dst)).len(),
    ensures
        write_chunk_items(*final(dst)) == read_chunk_items(*src),
{
    let (s0, s1) = read_chunk_slices(src);
    let (d0, d1) = write_chunk_slices(dst);
    let k0 = s0.len();
    let w0 = d0.len();
    if k0 <= w0 {
        let (d0a, d0b) = d0.split_at_mut(k0);
        copy_samples(d0a, s0);
        let (s1a, s1b) = s1.split_at(w0 - k0);
        copy_samples(d0b, s1a);
        copy_samples(d1, s1b);
    } else {
        let (s0a, s0b) = s0.split_at(w0);
        copy_samples(d0, s0a);
        let (d1a, d1b) = d1.split_at_mut(k0 - w0);
        copy_samples(d1a, s0b);
        copy_samples(d1b, s1);
    }
}

} // verus!
