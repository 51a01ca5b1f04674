//! What the audio engine is told to decode and what it offers its users.
use vstd::prelude::*;

verus! {

/// What the decoder is asked to do with the next packet.
#[derive(Debug, Clone)]
pub enum DecodeCommand {
    /// Decode a packet as received.
    DecodeNormal(Vec<u8>),
    /// Recover the previous, lost packet from the forward error correction
    /// data carried in this one.
    DecodeFEC(Vec<u8>),
    /// No packet arrived: conceal the loss.
    DecodePLC,
}

/// Why an engine operation failed.
#[derive(Debug, Clone)]
pub struct EngineError {
    pub message: String,
}

/// What an audio engine offers: playback and capture control, and a way to
/// wake its decoder when packets are waiting.
pub trait AudioEngine {
    fn notify_decoder(&self);

    fn play(&self) -> Result<(), EngineError>;

    fn pause(&self) -> Result<(), EngineError>;

    fn enable_mic(&self) -> Result<(), EngineError>;

    fn disable_mic(&self) -> Result<(), EngineError>;
}

} // verus!
