//! The recoverable failures the engine can surface.
//!
//! Every illegal request is rejected with one of these typed errors (or
//! handled as a guarded no-op); the engine never panics on user input.

use vstd::prelude::*;

verus! {

/// Failure to open and decode an audio file.
#[derive(Clone, Copy, Debug, PartialEq, Eq, Structural)]
pub enum LoadError {
    /// No file exists at the requested path.
    NotFound,
    /// The file exists but its container or codec is not recognised.
    UnsupportedFormat,
    /// The file was recognised but decoding its contents failed.
    DecodeFailure,
}

/// Failure to reposition the playback head.
#[derive(Clone, Copy, Debug, PartialEq, Eq, Structural)]
pub enum SeekError {
    /// The requested position lies beyond the track's total duration.
    OutOfRange,
    /// The loaded stream cannot seek at all.
    Unsupported,
}

/// Failure to change the output volume.
#[derive(Clone, Copy, Debug, PartialEq, Eq, Structural)]
pub enum VolumeError {
    /// The requested volume lies outside the accepted range.
    OutOfRange,
}

/// Any recoverable failure an intent can produce.
#[derive(Clone, Copy, Debug, PartialEq, Eq, Structural)]
pub enum EngineError {
    Load(LoadError),
    Seek(SeekError),
    Volume(VolumeError),
}

} // verus!
