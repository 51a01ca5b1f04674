//! How many samples make a frame, and when a frame can move from one ring
//! buffer to the next.
use vstd::prelude::*;

verus! {

/// Number of samples in one 10 ms frame at 48 kHz, which is also the frame
/// size of the noise suppressor.
pub const FRAME10MS: usize = 480;

/// A whole frame of `frame_len` samples can move from a buffer that holds
/// `available` samples into one with `free` free slots.
pub open spec fn frame_fits(available: int, free: int, frame_len: int) -> bool {
    available >= frame_len && free >= frame_len
}

/// A frame fits exactly when the source holds at least a frame and the
/// destination has room for at least one, however much more either has.
pub proof fn lemma_frame_fits_exactly(available: int, free: int, frame_len: int)
    ensures
        frame_fits(available, free, frame_len) <==> (available >= frame_len && free >= frame_len),
        frame_fits(available, free, frame_len) ==> frame_fits(available + 1, free, frame_len)
            && frame_fits(available, free + 1, frame_len),
{
}

/// Whether a whole frame of `frame_len` samples can move from a buffer that
/// holds `available` samples into one with `free` free slots.
pub fn frame_ready(available: usize, free: usize, frame_len: usize) -> (ready: bool)
    ensures
        ready == frame_fits(available as int, free as int, frame_len as int),
        ready == (available >= frame_len && free >= frame_len),
{
    available >= frame_len && free >= frame_len
}

/// Whether a processor can take one frame of `frame_len` samples from each of
/// its two inputs (microphone and reference) and put one into each of its two
/// outputs, given what each input holds and how much room each output has.
pub fn frames_ready(mic_available: usize, ref_available: usize, mic_free: usize, ref_free: usize, frame_len: usize) -> (ready: bool)
    ensures
        ready == (frame_fits(mic_available as int, mic_free as int, frame_len as int)
            && frame_fits(ref_available as int, ref_free as int, frame_len as int)),
        ready == (mic_available >= frame_len && mic_free >= frame_len && ref_available >= frame_len
            && ref_free >= frame_len),
{
    frame_ready(mic_available, mic_free, frame_len) && frame_ready(ref_available, ref_free, frame_len)
}

/// Capacity of each ring buffer between two processing stages: room for four
/// frames of whichever of the two stage frame sizes is larger.
pub fn stage_capacity(frame_size: usize, aec_frame_size: usize) -> (capacity: usize)
    requires
        4 * frame_size <= usize::MAX,
        4 * aec_frame_size <= usize::MAX,
    ensures
        capacity == 4 * (if frame_size >= aec_frame_size { frame_size } else { aec_frame_size }),
{
    if frame_size >= aec_frame_size {
        frame_size * 4
    } else {
        aec_frame_size * 4
    }
}

} // verus!
