# hacore

The audio core of a small voice-calling program, as a Verus-verified library.

- `src/frames.rs`: the frame size and the conditions under which a frame can
  move from one ring buffer to the next.
- `src/ring.rs`: what is assumed of the `rtrb` ring buffer (reserved read and
  write chunks), and `copy_chunk`, proved to copy a reserved frame exactly.
- `src/stream.rs`: the two ends of a sample stream with the history of what
  passed through them; a history grows only by committing a chunk.
- `src/forward.rs`: `forward_frame`, which moves one frame per stream or
  reports the reservation that fell short.
- `src/schedule.rs`: the step-by-step choice of which stage of the signal
  chain runs next, and what holds over any run of those steps.
- `src/empty_audio_processor.rs`: the pass-through processor, which reserves a
  frame in all four buffers before it moves anything.
- `src/apple_platform_audio_processor.rs`: the processor that owns a noise
  suppressor.
- `src/engine.rs`: decode commands and the engine interface.
- `app/`: the `hacat` program and the floating-point signal chain, which Verus
  does not check.
