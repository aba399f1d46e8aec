//! Binaural beat session library.
//!
//! Two slightly different sine tones, one per ear, produce the perception of
//! a "beat" at the difference frequency. This crate holds the session logic:
//! the preset tables, the per-ear frequency calculation and its validation,
//! the phase accumulator driven by the audio callback, the silence-on-cancel
//! rule, and the session controller's state machine. Frequencies are carried
//! as integer centihertz and sample amplitudes as integer fractions of full
//! scale, so every rule is stated and proved exactly; the host audio layer
//! converts to and from the device's floating-point sample format.

pub mod duration;
pub mod frequency;
pub mod params;
pub mod preset;
pub mod engine;
pub mod session;
