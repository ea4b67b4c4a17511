//! Core of a live meeting-transcription engine.
//!
//! Two audio sources (a microphone and the system output) are mixed into a
//! single mono stream, cut into bounded chunks, resampled to the rate the
//! speech-to-text service expects, and encoded for transport; the timestamped
//! text fragments the service returns are folded into complete, de-duplicated
//! sentences. Everything here is pure logic over plain values: the host
//! process supplies audio, the network, and the clock, and consumes the
//! updates this crate produces.

pub mod accumulator;
pub mod codec;
pub mod mixer;
pub mod resample;
pub mod retry;
pub mod session;
pub mod text;
pub mod timefmt;
