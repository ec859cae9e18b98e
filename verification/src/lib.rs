//! Playback control engine for a desktop audio player.
//!
//! The engine owns a model of the audio output device ([`sink::AudioSink`]),
//! the authoritative playback state machine ([`state::PlaybackState`]), and
//! the command router ([`router::CommandRouter`]) that applies user intents
//! to both. All transport decisions are made here, on plain values; the
//! binary around the library performs the actual device, dialog and file
//! work and feeds the outcomes back in as intents.

pub mod errors;
pub mod laws;
pub mod render;
pub mod router;
pub mod sink;
pub mod state;
