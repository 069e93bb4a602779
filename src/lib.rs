//! Clip playback and recording engine: the supplier chain that serves audio and MIDI frames of
//! a clip on demand, and the state machine of a slot that records clips.
pub mod supply;
pub mod recorder;
pub mod section;
pub mod looper;
pub mod downbeat;
pub mod time_stretcher;
pub mod resampler;
pub mod fader;
pub mod chain;
pub mod slot;
pub mod record_input;
