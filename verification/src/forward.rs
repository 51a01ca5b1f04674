//! Moving one frame from each of two input streams to its output stream.
use vstd::prelude::*;

use crate::ring::copy_chunk;
use crate::stream::{commit_read, commit_write, reserve_read, reserve_write, SampleConsumer, SampleProducer};

verus! {

/// Over one stretch of processing, `output` received, in order, exactly the
/// samples newly taken from `input`: the input's history grew by some
/// samples and the output's history by the same samples.
pub open spec fn forwarded(old_input: Seq<u32>, new_input: Seq<u32>, old_output: Seq<u32>, new_output: Seq<u32>) -> bool {
    &&& old_input.len() <= new_input.len()
    &&& new_input.subrange(0, old_input.len() as int) == old_input
    &&& new_output == old_output + new_input.subrange(old_input.len() as int, new_input.len() as int)
}

/// Forwarding composes: what one stretch forwards followed by what the next
/// stretch forwards is what the two stretches together forward.
pub proof fn lemma_forwarded_compose(
    input0: Seq<u32>, input1: Seq<u32>, input2: Seq<u32>,
    output0: Seq<u32>, output1: Seq<u32>, output2: Seq<u32>,
)
    requires
        forwarded(input0, input1, output0, output1),
        forwarded(input1, input2, output1, output2),
    ensures
        forwarded(input0, input2, output0, output2),
{
    let n0 = input0.len() as int;
    let n1 = input1.len() as int;
    let n2 = input2.len() as int;
    assert(input2.subrange(0, n0) =~= input1.subrange(0, n0));
    assert(input2.subrange(n0, n2) =~= input1.subrange(n0, n1) + input2.subrange(n1, n2));
    assert(output2 =~= output0 + input2.subrange(n0, n2));
}

/// Nothing forwarded: both histories as they were.
pub proof fn lemma_forwarded_nothing(input: Seq<u32>, output: Seq<u32>)
    ensures
        forwarded(input, input, output, output),
{
    assert(input.subrange(0, input.len() as int) =~= input);
    assert(output + input.subrange(input.len() as int, input.len() as int) =~= output);
}

/// Why a frame could not move: for each of the four reservations, the number
/// of samples (for an input) or free slots (for an output) that it reported,
/// where it failed, and `None` where it succeeded.
#[derive(Debug, Clone, Copy, PartialEq, Eq, Structural)]
pub struct Shortfall {
    pub mic_in: Option<usize>,
    pub ref_in: Option<usize>,
    pub mic_out: Option<usize>,
    pub ref_out: Option<usize>,
}

/// A reported count that stands for a failed reservation of `frame_len`.
pub open spec fn short_of(report: Option<usize>, frame_len: int) -> bool {
    report matches Some(count) ==> count < frame_len
}

impl Shortfall {
    /// At least one reservation failed, and each that failed reported fewer
    /// than `frame_len` samples or slots.
    pub open spec fn reports_short(self, frame_len: int) -> bool {
        &&& short_of(self.mic_in, frame_len)
        &&& short_of(self.ref_in, frame_len)
        &&& short_of(self.mic_out, frame_len)
        &&& short_of(self.ref_out, frame_len)
        &&& (self.mic_in is Some || self.ref_in is Some || self.mic_out is Some || self.ref_out is Some)
    }
}

/// The count that a reservation's error reports, or `None` if it succeeded.
pub fn reported_count<T>(reservation: &Result<T, usize>) -> (count: Option<usize>)
    ensures
        count == (match reservation {
            Ok(_) => None,
            Err(n) => Some(*n),
        }),
{
    match reservation {
        Ok(_) => None,
        Err(n) => Some(*n),
    }
}

/// What follows from the four reservations of a frame, given the count each
/// failed one reported (`None` for one that succeeded): the frame moves exactly
/// when all four succeeded; otherwise the counts make up the `Shortfall`.
pub fn frame_outcome(mic_in: Option<usize>, ref_in: Option<usize>, mic_out: Option<usize>, ref_out: Option<usize>) -> (r: Result<(), Shortfall>)
    ensures
        r is Ok <==> (mic_in is None && ref_in is None && mic_out is None && ref_out is None),
        r matches Err(shortfall) ==> shortfall == (Shortfall { mic_in, ref_in, mic_out, ref_out }),
{
    if mic_in.is_none() && ref_in.is_none() && mic_out.is_none() && ref_out.is_none() {
        Ok(())
    } else {
        Err(Shortfall { mic_in, ref_in, mic_out, ref_out })
    }
}

/// Moves one frame of `frame_len` samples from each input to its output, if
/// all four buffers can be reserved for it at once: the reference frame from
/// `ref_cons` to `ref_prod` and the microphone frame from `mic_cons` to
/// `mic_prod`, each sample unchanged and in order. The frame moves exactly
/// when all four reservations succeed, which a frame of length 0 always does.
/// If any fails, nothing is taken or handed over, and the `Shortfall` reports
/// what each failed reservation found.
pub fn forward_frame(
    mic_cons: &mut SampleConsumer,
    ref_cons: &mut SampleConsumer,
    mic_prod: &mut SampleProducer,
    ref_prod: &mut SampleProducer,
    frame_len: usize,
) -> (r: Result<(), Shortfall>)
    ensures
        forwarded(old(mic_cons)@, final(mic_cons)@, old(mic_prod)@, final(mic_prod)@),
        forwarded(old(ref_cons)@, final(ref_cons)@, old(ref_prod)@, final(ref_prod)@),
        final(mic_cons)@.len() == old(mic_cons)@.len() + (if r is Ok { frame_len as int } else { 0 }),
        final(ref_cons)@.len() == old(ref_cons)@.len() + (if r is Ok { frame_len as int } else { 0 }),
        r matches Err(shortfall) ==> shortfall.reports_short(frame_len as int),
        r matches Err(shortfall) ==> shortfall == (Shortfall {
            mic_in: final(mic_cons).last_report(),
            ref_in: final(ref_cons).last_report(),
            mic_out: final(mic_prod).last_report(),
            ref_out: final(ref_prod).last_report(),
        }),
        r is Ok ==> final(mic_cons).last_report() is None && final(ref_cons).last_report() is None
            && final(mic_prod).last_report() is None && final(ref_prod).last_report() is None,
        frame_len == 0 ==> r is Ok,
{
    let ghost mic_cons0 = mic_cons@;
    let ghost ref_cons0 = ref_cons@;
    let ghost mic_prod0 = mic_prod@;
    let ghost ref_prod0 = ref_prod@;
    let (mic_source, mic_taken) = mic_cons.parts();
    let (ref_source, ref_taken) = ref_cons.parts();
    let (mic_sink, mic_given) = mic_prod.parts();
    let (ref_sink, ref_given) = ref_prod.parts();
    let mic_in = reserve_read(mic_source, mic_taken, frame_len);
    let ref_in = reserve_read(ref_source, ref_taken, frame_len);
    let mic_out = reserve_write(mic_sink, mic_given, frame_len);
    let ref_out = reserve_write(ref_sink, ref_given, frame_len);
    let outcome = frame_outcome(
        reported_count(&mic_in),
        reported_count(&ref_in),
        reported_count(&mic_out),
        reported_count(&ref_out),
    );
    match (mic_in, ref_in, mic_out, ref_out) {
        (Ok(mic_in), Ok(ref_in), Ok(mut mic_out), Ok(mut ref_out)) => {
            copy_chunk(&ref_in, &mut ref_out);
            commit_read(ref_taken, ref_in);
            commit_write(ref_given, ref_out);
            copy_chunk(&mic_in, &mut mic_out);
            commit_read(mic_taken, mic_in);
            commit_write(mic_given, mic_out);
            proof {
                assert(ref_taken@.subrange(0, ref_cons0.len() as int) =~= ref_cons0);
                assert(ref_given@ =~= ref_prod0 + ref_taken@.subrange(ref_cons0.len() as int, ref_taken@.len() as int));
                assert(mic_taken@.subrange(0, mic_cons0.len() as int) =~= mic_cons0);
                assert(mic_given@ =~= mic_prod0 + mic_taken@.subrange(mic_cons0.len() as int, mic_taken@.len() as int));
            }
            outcome
        },
        _ => {
            proof {
                lemma_forwarded_nothing(mic_cons0, mic_prod0);
                lemma_forwarded_nothing(ref_cons0, ref_prod0);
            }
            outcome
        },
    }
}

} // verus!
