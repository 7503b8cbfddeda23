//! Core of a voice dictation tool: PCM chunk model and wire encoding, the
//! capture session state machine, transcription result types, hotkey
//! normalisation and microphone permission status.

pub mod audio_chunk;
pub mod capture;
pub mod clock;
pub mod hotkey;
pub mod microphone_permission;
pub mod transcription;
