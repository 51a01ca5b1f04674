//! Audio processing building blocks of a voice-calling engine: the processors
//! that move 10 ms frames of samples between the ring buffers of the engine,
//! and the commands and interfaces that the engine offers.
use vstd::prelude::*;

pub mod apple_platform_audio_processor;
pub mod empty_audio_processor;
pub mod engine;
pub mod forward;
pub mod frames;
pub mod ring;
pub mod schedule;
pub mod stream;

pub use apple_platform_audio_processor::ApplePlatformAudioProcessor;
pub use empty_audio_processor::EmptyAudioProcessor;
pub use engine::{AudioEngine, DecodeCommand, EngineError};
pub use schedule::{schedule, stage_can_run, ChainAction, ChainLevels, FrameSizes, Stage};
pub use forward::Shortfall;
pub use stream::{SampleConsumer, SampleProducer};
pub use frames::{frame_ready, frames_ready, stage_capacity, FRAME10MS};

verus! {

/// Why a processor could not be built.
#[derive(Debug, Clone)]
pub struct ProcessorError {
    pub message: String,
}

} // verus!
