//! A processor that forwards both signals unchanged.
use vstd::prelude::*;

use crate::frames::FRAME10MS;
use crate::forward::{
    forward_frame, forwarded, lemma_forwarded_compose, lemma_forwarded_nothing, Shortfall,
};
use crate::stream::{SampleConsumer, SampleProducer};
use crate::ProcessorError;

verus! {

/// Passes the microphone signal and the reference signal through untouched,
/// a whole 10 ms frame of each at a time.
pub struct EmptyAudioProcessor {}

impl EmptyAudioProcessor {
    /// Builds the processor; this cannot fail.
    pub fn build() -> (r: Result<Self, ProcessorError>)
        ensures
            r is Ok,
    {
        Ok(EmptyAudioProcessor {})
    }

    /// Forwards frames until one cannot move: each time, a frame of the
    /// reference input goes to the reference output and a frame of the
    /// microphone input to the microphone output, each sample unchanged and in
    /// order, and nothing is taken from either input unless all four buffers
    /// have been reserved for the frame. A frame that wraps around the end of
    /// a buffer is copied whole (see `copy_chunk`). It returns the `Shortfall` of the
    /// reservation that stopped it. (A call is capped at `usize::MAX` frames,
    /// which no buffer can supply; it then returns `None`.)
    pub fn process(
        &mut self,
        mic_cons: &mut SampleConsumer,
        ref_cons: &mut SampleConsumer,
        mic_prod: &mut SampleProducer,
        ref_prod: &mut SampleProducer,
    ) -> (stop: Option<Shortfall>)
        ensures
            forwarded(old(mic_cons)@, final(mic_cons)@, old(mic_prod)@, final(mic_prod)@),
            forwarded(old(ref_cons)@, final(ref_cons)@, old(ref_prod)@, final(ref_prod)@),
            final(mic_cons)@.len() - old(mic_cons)@.len() == final(ref_cons)@.len() - old(ref_cons)@.len(),
            (final(mic_cons)@.len() - old(mic_cons)@.len()) % (FRAME10MS as int) == 0,
            stop matches Some(shortfall) ==> shortfall.reports_short(FRAME10MS as int),
            stop matches Some(shortfall) ==> shortfall == (Shortfall {
                mic_in: final(mic_cons).last_report(),
                ref_in: final(ref_cons).last_report(),
                mic_out: final(mic_prod).last_report(),
                ref_out: final(ref_prod).last_report(),
            }),
            stop is None ==> final(mic_cons)@.len() - old(mic_cons)@.len() == usize::MAX * FRAME10MS,
    {
        let mut moved: usize = 0;
        proof {
            lemma_forwarded_nothing(mic_cons@, mic_prod@);
            lemma_forwarded_nothing(ref_cons@, ref_prod@);
        }
        while moved < usize::MAX
            invariant
                forwarded(old(mic_cons)@, mic_cons@, old(mic_prod)@, mic_prod@),
                forwarded(old(ref_cons)@, ref_cons@, old(ref_prod)@, ref_prod@),
                mic_cons@.len() == old(mic_cons)@.len() + moved * FRAME10MS,
                ref_cons@.len() == old(ref_cons)@.len() + moved * FRAME10MS,
            decreases usize::MAX - moved,
        {
            let ghost mic_cons1 = mic_cons@;
            let ghost ref_cons1 = ref_cons@;
            let ghost mic_prod1 = mic_prod@;
            let ghost ref_prod1 = ref_prod@;
            let step = forward_frame(mic_cons, ref_cons, mic_prod, ref_prod, FRAME10MS);
            proof {
                lemma_forwarded_compose(old(mic_cons)@, mic_cons1, mic_cons@, old(mic_prod)@, mic_prod1, mic_prod@);
                lemma_forwarded_compose(old(ref_cons)@, ref_cons1, ref_cons@, old(ref_prod)@, ref_prod1, ref_prod@);
            }
            match step {
                Ok(()) => {},
                Err(shortfall) => {
                    proof {
                        vstd::arithmetic::div_mod::lemma_mod_multiples_basic(moved as int, FRAME10MS as int);
                    }
                    return Some(shortfall);
                },
            }
            moved = moved + 1;
        }
        proof {
            vstd::arithmetic::div_mod::lemma_mod_multiples_basic(moved as int, FRAME10MS as int);
        }
        None
    }
}

} // verus!
