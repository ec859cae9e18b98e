//! The authoritative playback state machine.
//!
//! [`PlaybackState`] is the engine's own record of what is loaded and how
//! transport stands; it is mutated exclusively by the command router, in
//! response to intents, and starts empty.

use vstd::prelude::*;

use crate::sink::VOLUME_DEFAULT;
use crate::sink::VOLUME_MAX;

verus! {

/// The transport status.
#[derive(Clone, Copy, Debug, PartialEq, Eq, Structural)]
pub enum Status {
    /// Nothing is loaded.
    Empty,
    /// A track is loaded but has not started producing audio.
    Loaded,
    /// A track is producing audio.
    Playing,
    /// A track is loaded and output is halted.
    Paused,
}

/// The engine's record: transport status, cached track metadata, the output
/// volume, the selected source file and the best-effort cover art.
pub struct PlaybackState {
    pub status: Status,
    /// Total duration of the loaded track, in milliseconds; `0` when no
    /// track is loaded or the duration is unknown.
    pub total_duration: u64,
    /// Output volume, in hundredths of unity gain.
    pub volume: u32,
    /// The selected source file. Present whenever a track is loaded; it may
    /// also be present while `Empty`, between file selection and playback.
    pub source_path: Option<String>,
    /// Decoded cover-art bytes, best-effort: absence is not an error, and
    /// the field is independent of transport status.
    pub cover: Option<Vec<u8>>,
}

impl PlaybackState {
    /// The state machine's invariant: the volume never exceeds the ceiling,
    /// an empty state has no duration, and a loaded track always has a
    /// source path.
    pub open spec fn wf(&self) -> bool {
        &&& self.volume <= VOLUME_MAX
        &&& self.status is Empty ==> self.total_duration == 0
        &&& self.status !is Empty ==> self.source_path is Some
    }

    /// The startup state: empty, default volume, no source, no cover.
    pub fn new() -> (s: Self)
        ensures
            s.wf(),
            s.status is Empty,
            s.total_duration == 0,
            s.volume == VOLUME_DEFAULT,
            s.source_path is None,
            s.cover is None,
    {
        PlaybackState {
            status: Status::Empty,
            total_duration: 0,
            volume: VOLUME_DEFAULT,
            source_path: None,
            cover: None,
        }
    }
}

} // verus!
