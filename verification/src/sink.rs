//! A model of the audio output device.
//!
//! [`AudioSink`] tracks, as plain values, everything the engine reads of the
//! device: whether a decoded stream is buffered, whether output is halted,
//! the playback head's position, and the output volume. The binary around
//! the library keeps the physical device in step by issuing it the same
//! transport commands; decoding itself is the device collaborator's work,
//! so [`AudioSink::load`] takes the decoder's outcome as an argument.
//!
//! Durations and positions are in milliseconds. Volume is in hundredths of
//! unity gain: `100` is 1.0, and `VOLUME_MAX` (1.5) is a hard ceiling — a
//! raise above it is rejected, never clamped.

use vstd::prelude::*;

use crate::errors::{LoadError, SeekError, VolumeError};

verus! {

/// The hard volume ceiling, in hundredths of unity gain (1.5).
pub const VOLUME_MAX: u32 = 150;

/// The volume of a freshly created sink, in hundredths of unity gain (1.0).
pub const VOLUME_DEFAULT: u32 = 100;

/// Cached metadata for the loaded track.
#[derive(Clone, Copy, Debug, PartialEq, Eq, Structural)]
pub struct PlaybackInfo {
    /// Total duration in milliseconds; `0` means the duration could not be
    /// derived and is unknown (a display must show a placeholder for it).
    pub total_duration: u64,
}

/// What the decode collaborator reports about a freshly opened track.
#[derive(Clone, Copy, Debug, PartialEq, Eq, Structural)]
pub struct TrackInfo {
    /// Total duration in milliseconds; `0` when it could not be derived.
    pub duration_ms: u64,
    /// Whether the decoded stream supports repositioning at all.
    pub seekable: bool,
}

/// The device model: one buffered stream at most, a halt flag, a playback
/// head and a volume. A fresh sink is empty, unhalted and at unity gain.
pub struct AudioSink {
    /// Whether a decoded stream is currently buffered.
    pub buffered: bool,
    /// Whether output is halted. A buffered, unhalted sink produces audio.
    pub paused: bool,
    /// The playback head, in milliseconds.
    pub position_ms: u64,
    /// Whether the buffered stream supports seeking.
    pub seekable: bool,
    /// Output volume, in hundredths of unity gain.
    pub volume: u32,
    /// Cached metadata of the buffered stream.
    pub playback_info: PlaybackInfo,
}

impl AudioSink {
    /// The sink's internal invariant: the volume never exceeds the ceiling,
    /// and an empty sink has no position, duration or seek support.
    pub open spec fn wf(&self) -> bool {
        &&& self.volume <= VOLUME_MAX
        &&& !self.buffered ==> self.position_ms == 0 && self.playback_info.total_duration == 0
            && !self.seekable
    }

    /// The sink is actively producing audio.
    pub open spec fn playing(&self) -> bool {
        self.buffered && !self.paused
    }

    /// A fresh, empty device at the default volume.
    pub fn new() -> (s: Self)
        ensures
            s.wf(),
            !s.buffered,
            !s.paused,
            s.position_ms == 0,
            !s.seekable,
            s.volume == VOLUME_DEFAULT,
            s.playback_info.total_duration == 0,
    {
        AudioSink {
            buffered: false,
            paused: false,
            position_ms: 0,
            seekable: false,
            volume: VOLUME_DEFAULT,
            playback_info: PlaybackInfo { total_duration: 0 },
        }
    }

    /// Apply the decode collaborator's outcome for a new track. On success
    /// the decoded stream is buffered, halted and rewound, and its reported
    /// duration is cached; on failure the sink is left exactly as it was.
    pub fn load(&mut self, outcome: Result<TrackInfo, LoadError>) -> (r: Result<u64, LoadError>)
        requires
            old(self).wf(),
        ensures
            final(self).wf(),
            final(self).volume == old(self).volume,
            match outcome {
                Ok(info) => {
                    &&& r == Ok::<u64, LoadError>(info.duration_ms)
                    &&& final(self).buffered
                    &&& final(self).paused
                    &&& final(self).position_ms == 0
                    &&& final(self).seekable == info.seekable
                    &&& final(self).playback_info.total_duration == info.duration_ms
                },
                Err(e) => r == Err::<u64, LoadError>(e) && *final(self) == *old(self),
            },
    {
        match outcome {
            Ok(info) => {
                self.buffered = true;
                self.paused = true;
                self.position_ms = 0;
                self.seekable = info.seekable;
                self.playback_info.total_duration = info.duration_ms;
                Ok(info.duration_ms)
            },
            Err(e) => Err(e),
        }
    }

    /// Start producing audio; a no-op when nothing is buffered or when
    /// already playing.
    pub fn play(&mut self)
        ensures
            *final(self) == (AudioSink {
                paused: if old(self).buffered { false } else { old(self).paused },
                ..*old(self)
            }),
    {
        if self.buffered {
            self.paused = false;
        }
    }

    /// Halt output while retaining the position; idempotent.
    pub fn pause(&mut self)
        ensures
            *final(self) == (AudioSink { paused: true, ..*old(self) }),
    {
        self.paused = true;
    }

    /// Discard the buffered stream and position, returning the device to an
    /// empty state; idempotent. The volume setting survives.
    pub fn stop(&mut self)
        ensures
            *final(self) == (AudioSink {
                buffered: false,
                paused: false,
                position_ms: 0,
                seekable: false,
                volume: old(self).volume,
                playback_info: PlaybackInfo { total_duration: 0 },
            }),
    {
        self.buffered = false;
        self.paused = false;
        self.position_ms = 0;
        self.seekable = false;
        self.playback_info.total_duration = 0;
    }

    /// Reposition the playback head. Fails with `Unsupported` when the
    /// stream cannot seek, and with `OutOfRange` when the target lies beyond
    /// the total duration; either failure leaves the sink unchanged.
    pub fn seek(&mut self, position_ms: u64) -> (r: Result<(), SeekError>)
        ensures
            r == (if !old(self).seekable {
                Err::<(), SeekError>(SeekError::Unsupported)
            } else if position_ms > old(self).playback_info.total_duration {
                Err::<(), SeekError>(SeekError::OutOfRange)
            } else {
                Ok::<(), SeekError>(())
            }),
            *final(self) == (AudioSink {
                position_ms: if r is Ok { position_ms } else { old(self).position_ms },
                ..*old(self)
            }),
    {
        if !self.seekable {
            Err(SeekError::Unsupported)
        } else if position_ms > self.playback_info.total_duration {
            Err(SeekError::OutOfRange)
        } else {
            self.position_ms = position_ms;
            Ok(())
        }
    }

    /// Change the output volume. A request above the ceiling is rejected
    /// with `OutOfRange` and leaves the volume unchanged.
    pub fn set_volume(&mut self, volume: u32) -> (r: Result<(), VolumeError>)
        ensures
            r == (if volume <= VOLUME_MAX {
                Ok::<(), VolumeError>(())
            } else {
                Err::<(), VolumeError>(VolumeError::OutOfRange)
            }),
            *final(self) == (AudioSink {
                volume: if volume <= VOLUME_MAX { volume } else { old(self).volume },
                ..*old(self)
            }),
    {
        if volume <= VOLUME_MAX {
            self.volume = volume;
            Ok(())
        } else {
            Err(VolumeError::OutOfRange)
        }
    }

    /// Refresh the cached total duration of the buffered stream, once tag
    /// metadata supplies what the decoder could not derive.
    pub fn set_duration(&mut self, duration_ms: u64)
        requires
            old(self).buffered,
        ensures
            *final(self) == (AudioSink {
                playback_info: PlaybackInfo { total_duration: duration_ms },
                ..*old(self)
            }),
    {
        self.playback_info.total_duration = duration_ms;
    }

    /// Whether output is halted.
    pub fn is_paused(&self) -> (r: bool)
        ensures
            r == self.paused,
    {
        self.paused
    }

    /// Whether nothing is buffered.
    pub fn is_empty(&self) -> (r: bool)
        ensures
            r == !self.buffered,
    {
        !self.buffered
    }

    /// The playback head, in milliseconds.
    pub fn get_pos(&self) -> (r: u64)
        ensures
            r == self.position_ms,
    {
        self.position_ms
    }

    /// The output volume, in hundredths of unity gain.
    pub fn get_volume(&self) -> (r: u32)
        ensures
            r == self.volume,
    {
        self.volume
    }

    /// Let the model's clock run: while audio is produced the head advances
    /// by the elapsed time (capped at a known total duration); while halted
    /// or empty it is frozen. The head never moves backwards.
    pub fn advance(&mut self, elapsed_ms: u64)
        ensures
            *final(self) == (AudioSink {
                position_ms: advanced_position(*old(self), elapsed_ms),
                ..*old(self)
            }),
            final(self).position_ms >= old(self).position_ms,
            !old(self).playing() ==> final(self).position_ms == old(self).position_ms,
    {
        if !self.buffered || self.paused {
            return;
        }
        let total: u64 = self.playback_info.total_duration;
        if total > 0 {
            if self.position_ms < total {
                if elapsed_ms <= total - self.position_ms {
                    self.position_ms = self.position_ms + elapsed_ms;
                } else {
                    self.position_ms = total;
                }
            }
        } else {
            if elapsed_ms <= u64::MAX - self.position_ms {
                self.position_ms = self.position_ms + elapsed_ms;
            } else {
                self.position_ms = u64::MAX;
            }
        }
    }
}

/// Where the playback head stands after `elapsed_ms` of wall time: frozen
/// unless audio is produced, capped at a known total duration, saturating
/// when the duration is unknown.
pub open spec fn advanced_position(s: AudioSink, elapsed_ms: u64) -> u64 {
    let pos = s.position_ms;
    let total = s.playback_info.total_duration;
    if !s.playing() {
        pos
    } else if total > 0 {
        if pos >= total {
            pos
        } else if pos + elapsed_ms <= total {
            (pos + elapsed_ms) as u64
        } else {
            total
        }
    } else {
        if pos + elapsed_ms <= u64::MAX {
            (pos + elapsed_ms) as u64
        } else {
            u64::MAX
        }
    }
}

} // verus!
