//! A processor that forwards the reference signal and runs the microphone
//! signal through a noise suppressor.
use vstd::prelude::*;

use crate::ProcessorError;

verus! {

#[verifier::external_type_specification]
#[verifier::external_body]
pub struct ExDenoiseState<'model>(nnnoiseless::DenoiseState<'model>);

/// `DenoiseState::new`: a fresh noise suppressor with the built-in model.
/// Nothing is stated of its internal state.
#[verifier::external_body]
fn new_denoise_state() -> Box<nnnoiseless::DenoiseState<'static>> {
    nnnoiseless::DenoiseState::new()
}

/// Holds the noise suppressor that the microphone signal goes through.
pub struct ApplePlatformAudioProcessor {
    denoise: Box<nnnoiseless::DenoiseState<'static>>,
}

impl ApplePlatformAudioProcessor {
    /// The noise suppressor that the processor holds.
    pub closed spec fn denoiser(&self) -> nnnoiseless::DenoiseState<'static> {
        *self.denoise
    }

    /// Builds the processor with a fresh noise suppressor; this cannot fail.
    pub fn build() -> (r: Result<Self, ProcessorError>)
        ensures
            r is Ok,
    {
        let denoise = new_denoise_state();
        Ok(ApplePlatformAudioProcessor { denoise })
    }

    /// The noise suppressor, for the code that feeds it samples.
    /// What is done through the returned reference is done to the processor's
    /// own noise suppressor.
    pub fn denoise_state(&mut self) -> (state: &mut nnnoiseless::DenoiseState<'static>)
        ensures
            *state == old(self).denoiser(),
            final(self).denoiser() == *final(state),
    {
        &mut self.denoise
    }
}

} // verus!
