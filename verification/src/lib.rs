//! Core of a polyphonic additive-synthesis voice engine.
//!
//! The crate holds the discrete signal-path logic: the note/voice
//! lifecycle (a bounded, insertion-ordered voice pool driven by MIDI
//! note events) and the parameter store that routes scalar automation
//! values. The floating-point rendering stages (pitch mapping,
//! harmonic oscillator bank, envelope) live with the host glue, which
//! feeds this crate plain integer events and reads plain state back.

pub mod params;
pub mod pool;
pub mod voice;
