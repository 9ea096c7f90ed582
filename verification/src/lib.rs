//! Core logic of a sound-to-light pipeline: a stereo sample assembler, a
//! MIDI event decoder, a note-lifecycle renderer, a silence-pulse generator,
//! and the orchestration rules that tie a capture thread, a compute thread
//! and a render thread together over bounded queues.
//!
//! Hardware access (the audio/MIDI driver, the LED strip) and the
//! floating-point spectral analysis live outside this crate; this crate holds
//! everything that can be stated and proved over plain values.

pub mod color;
pub mod note;
pub mod config;
pub mod layout;
pub mod lifecycle;
pub mod midi;
pub mod pipeline;
pub mod pulse;
pub mod sample;
