//! The command router: the single place where user intents and the results
//! of asynchronous work are applied to the device model and the playback
//! state machine.
//!
//! The whole transition relation is written down once, as the spec
//! functions [`next`], [`next_load`], [`step_effect`] and [`step_error`];
//! the executable [`CommandRouter::update`] and
//! [`CommandRouter::resolve_load`] are proved to follow them exactly. The
//! laws about the state machine (idempotence, closure, staleness) are
//! stated over these spec functions in the `laws` module.
//!
//! Asynchronous work never happens here: `update` answers with an
//! [`Effect`] naming the work (open the file picker, read tags, decode a
//! source), the caller performs it, and its outcome re-enters the router as
//! a later intent or as the argument of `resolve_load`. A metadata result
//! is tagged with the path it was read from; a result whose path no longer
//! matches the current selection is stale and is discarded silently.

use vstd::prelude::*;

use crate::errors::{EngineError, LoadError, SeekError, VolumeError};
use crate::sink::{AudioSink, TrackInfo, VOLUME_DEFAULT, VOLUME_MAX};
use crate::state::{PlaybackState, Status};

verus! {

/// What a metadata load yields: an optional duration and optional embedded
/// cover art. A read failure degrades to both fields absent.
pub struct Metadata {
    /// Total duration in milliseconds, when the tags carry one.
    pub duration_ms: Option<u64>,
    /// Embedded cover-art bytes, when the tags carry a picture.
    pub cover: Option<Vec<u8>>,
}

/// A user request or the delivered result of asynchronous work.
pub enum Intent {
    /// Periodic refresh while playing; carries no data and changes nothing.
    Tick,
    /// Start or resume playback.
    Play,
    /// Halt playback, retaining the position.
    Pause,
    /// Discard the loaded track and return to the empty state.
    Stop,
    /// Move the playback head to the given position, in milliseconds.
    Seek(u64),
    /// Set the output volume, in hundredths of unity gain.
    Volume(u32),
    /// Ask for the file picker to be opened.
    PickFile,
    /// The file picker resolved: a chosen path, or `None` on cancellation.
    FileSelected(Option<String>),
    /// A metadata load finished for the given path.
    MetadataLoaded(String, Metadata),
}

/// Work the caller must perform after an intent was applied.
#[derive(Debug)]
pub enum Effect {
    /// Nothing to do.
    Quiet,
    /// Prompt the user for an audio file.
    OpenFilePicker,
    /// Read duration and cover art for the given path, off the control
    /// thread, and deliver the outcome as `Intent::MetadataLoaded`.
    LoadMetadata(String),
    /// Open and decode the given path, and hand the outcome to
    /// `CommandRouter::resolve_load`.
    LoadSource(String),
}

/// The mathematical image of an [`Effect`].
#[verifier::ext_equal]
pub ghost enum EffectModel {
    Quiet,
    OpenFilePicker,
    LoadMetadata(Seq<char>),
    LoadSource(Seq<char>),
}

impl View for Effect {
    type V = EffectModel;

    open spec fn view(&self) -> EffectModel {
        match self {
            Effect::Quiet => EffectModel::Quiet,
            Effect::OpenFilePicker => EffectModel::OpenFilePicker,
            Effect::LoadMetadata(p) => EffectModel::LoadMetadata(p@),
            Effect::LoadSource(p) => EffectModel::LoadSource(p@),
        }
    }
}

/// The mathematical image of the whole engine: playback state machine and
/// device model collapsed into one record.
#[verifier::ext_equal]
pub ghost struct Model {
    pub status: Status,
    pub total_duration: u64,
    pub volume: u32,
    pub source_path: Option<Seq<char>>,
    pub cover: Option<Seq<u8>>,
    pub position: u64,
    pub buffered: bool,
    pub paused: bool,
    pub seekable: bool,
}

/// The invariant every reachable engine satisfies.
pub open spec fn model_wf(m: Model) -> bool {
    &&& m.volume <= VOLUME_MAX
    &&& (m.status is Empty <==> !m.buffered)
    &&& m.status is Empty ==> m.total_duration == 0
    &&& m.status !is Empty ==> m.source_path is Some
    &&& m.status is Playing ==> !m.paused
    &&& (m.status is Paused || m.status is Loaded) ==> m.paused
    &&& !m.buffered ==> m.position == 0 && m.total_duration == 0 && !m.seekable
}

/// The engine after one intent. Every illegal combination is a guarded
/// no-op or leaves the state unchanged beside a typed error; no intent can
/// make the engine panic.
pub open spec fn next(m: Model, intent: Intent) -> Model {
    match intent {
        Intent::Tick => m,
        Intent::Play => match m.status {
            // Loading is the caller's work; the state changes at
            // `next_load`, once the decode outcome is in.
            Status::Empty => m,
            Status::Loaded => Model { status: Status::Playing, paused: false, ..m },
            Status::Paused => Model { status: Status::Playing, paused: false, ..m },
            Status::Playing => m,
        },
        Intent::Pause => if m.status is Playing {
            Model { status: Status::Paused, paused: true, ..m }
        } else {
            m
        },
        Intent::Stop => if m.status is Empty {
            m
        } else {
            Model {
                status: Status::Empty,
                total_duration: 0,
                source_path: None,
                position: 0,
                buffered: false,
                paused: false,
                seekable: false,
                ..m
            }
        },
        Intent::Seek(p) => if (m.status is Playing || m.status is Paused) && m.seekable
            && p <= m.total_duration {
            Model { position: p, ..m }
        } else {
            m
        },
        Intent::Volume(v) => if v <= VOLUME_MAX {
            Model { volume: v, ..m }
        } else {
            m
        },
        Intent::PickFile => m,
        Intent::FileSelected(choice) => match choice {
            Some(path) => Model { source_path: Some(path@), cover: None, ..m },
            None => m,
        },
        Intent::MetadataLoaded(path, meta) => if m.source_path == Some(path@) {
            Model {
                cover: meta.cover.deep_view(),
                total_duration: if m.status !is Empty && m.total_duration == 0
                    && meta.duration_ms is Some {
                    meta.duration_ms->0
                } else {
                    m.total_duration
                },
                ..m
            }
        } else {
            m
        },
    }
}

/// The work an intent asks of the caller.
pub open spec fn step_effect(m: Model, intent: Intent) -> EffectModel {
    match intent {
        Intent::Play => if m.status is Empty && m.source_path is Some {
            EffectModel::LoadSource(m.source_path->0)
        } else {
            EffectModel::Quiet
        },
        Intent::PickFile => EffectModel::OpenFilePicker,
        Intent::FileSelected(choice) => match choice {
            Some(path) => EffectModel::LoadMetadata(path@),
            None => EffectModel::Quiet,
        },
        _ => EffectModel::Quiet,
    }
}

/// The typed failure an intent produces, if any: exactly an out-of-range or
/// unsupported seek while a track is loaded, or an out-of-range volume.
pub open spec fn step_error(m: Model, intent: Intent) -> Option<EngineError> {
    match intent {
        Intent::Seek(p) => if m.status is Playing || m.status is Paused {
            if !m.seekable {
                Some(EngineError::Seek(SeekError::Unsupported))
            } else if p > m.total_duration {
                Some(EngineError::Seek(SeekError::OutOfRange))
            } else {
                None
            }
        } else {
            None
        },
        Intent::Volume(v) => if v <= VOLUME_MAX {
            None
        } else {
            Some(EngineError::Volume(VolumeError::OutOfRange))
        },
        _ => None,
    }
}

/// The engine after a decode outcome arrives. It matters only while the
/// engine is still empty with a selected source — the very situation in
/// which `update` answered `Effect::LoadSource`; delivered out of turn it
/// is discarded.
pub open spec fn next_load(m: Model, outcome: Result<TrackInfo, LoadError>) -> Model {
    if m.status is Empty && m.source_path is Some {
        match outcome {
            Ok(info) => Model {
                status: Status::Playing,
                total_duration: info.duration_ms,
                position: 0,
                buffered: true,
                paused: false,
                seekable: info.seekable,
                ..m
            },
            Err(_) => m,
        }
    } else {
        m
    }
}

/// The failure a decode outcome surfaces: the decode error itself, when the
/// outcome was awaited; nothing, when it was stale.
pub open spec fn load_error(m: Model, outcome: Result<TrackInfo, LoadError>) -> Option<
    LoadError,
> {
    if m.status is Empty && m.source_path is Some {
        match outcome {
            Ok(_) => None,
            Err(e) => Some(e),
        }
    } else {
        None
    }
}

/// The engine: exclusive owner of the device model and the playback state,
/// applying intents strictly in arrival order.
pub struct CommandRouter {
    pub sink: AudioSink,
    pub state: PlaybackState,
}

impl View for CommandRouter {
    type V = Model;

    open spec fn view(&self) -> Model {
        Model {
            status: self.state.status,
            total_duration: self.state.total_duration,
            volume: self.state.volume,
            source_path: self.state.source_path.deep_view(),
            cover: self.state.cover.deep_view(),
            position: self.sink.position_ms,
            buffered: self.sink.buffered,
            paused: self.sink.paused,
            seekable: self.sink.seekable,
        }
    }
}

impl CommandRouter {
    /// The router's invariant: both halves are well formed, agree on the
    /// cached duration and volume, and the status names the device's
    /// condition exactly.
    pub open spec fn wf(&self) -> bool {
        &&& self.sink.wf()
        &&& self.state.wf()
        &&& self.state.total_duration == self.sink.playback_info.total_duration
        &&& self.state.volume == self.sink.volume
        &&& (self.state.status is Empty <==> !self.sink.buffered)
        &&& self.state.status is Playing ==> !self.sink.paused
        &&& (self.state.status is Paused || self.state.status is Loaded) ==> self.sink.paused
        &&& model_wf(self@)
    }

    /// A fresh engine: empty, default volume, nothing selected.
    pub fn new() -> (r: Self)
        ensures
            r.wf(),
            r@.status is Empty,
            r@.total_duration == 0,
            r@.volume == VOLUME_DEFAULT,
            r@.source_path is None,
            r@.cover is None,
            r@.position == 0,
    {
        CommandRouter { sink: AudioSink::new(), state: PlaybackState::new() }
    }

    /// Apply one intent. The new engine is exactly [`next`] of the old one;
    /// the answer carries [`step_effect`]'s work on success and
    /// [`step_error`]'s failure otherwise.
    pub fn update(&mut self, intent: Intent) -> (r: Result<Effect, EngineError>)
        requires
            old(self).wf(),
        ensures
            final(self).wf(),
            final(self)@ == next(old(self)@, intent),
            match r {
                Ok(effect) => step_error(old(self)@, intent) is None && effect@ == step_effect(
                    old(self)@,
                    intent,
                ),
                Err(e) => Some(e) == step_error(old(self)@, intent),
            },
    {
        match intent {
            Intent::Tick => Ok(Effect::Quiet),
            Intent::Play => {
                if self.state.status == Status::Empty {
                    match &self.state.source_path {
                        Some(path) => Ok(Effect::LoadSource(path.clone())),
                        None => Ok(Effect::Quiet),
                    }
                } else {
                    self.sink.play();
                    self.state.status = Status::Playing;
                    Ok(Effect::Quiet)
                }
            },
            Intent::Pause => {
                if self.state.status == Status::Playing {
                    self.sink.pause();
                    self.state.status = Status::Paused;
                }
                Ok(Effect::Quiet)
            },
            Intent::Stop => {
                if self.state.status != Status::Empty {
                    self.sink.stop();
                    self.state.status = Status::Empty;
                    self.state.total_duration = 0;
                    self.state.source_path = None;
                }
                Ok(Effect::Quiet)
            },
            Intent::Seek(p) => {
                if self.state.status == Status::Playing || self.state.status == Status::Paused {
                    match self.sink.seek(p) {
                        Ok(()) => Ok(Effect::Quiet),
                        Err(e) => Err(EngineError::Seek(e)),
                    }
                } else {
                    Ok(Effect::Quiet)
                }
            },
            Intent::Volume(v) => {
                match self.sink.set_volume(v) {
                    Ok(()) => {
                        self.state.volume = v;
                        Ok(Effect::Quiet)
                    },
                    Err(e) => Err(EngineError::Volume(e)),
                }
            },
            Intent::PickFile => Ok(Effect::OpenFilePicker),
            Intent::FileSelected(choice) => match choice {
                Some(path) => {
                    let request = path.clone();
                    self.state.source_path = Some(path);
                    self.state.cover = None;
                    Ok(Effect::LoadMetadata(request))
                },
                None => Ok(Effect::Quiet),
            },
            Intent::MetadataLoaded(path, meta) => {
                let fresh = match &self.state.source_path {
                    Some(current) => *current == path,
                    None => false,
                };
                if fresh {
                    if self.state.status != Status::Empty && self.state.total_duration == 0 {
                        match meta.duration_ms {
                            Some(d) => {
                                self.state.total_duration = d;
                                self.sink.set_duration(d);
                            },
                            None => {},
                        }
                    }
                    self.state.cover = meta.cover;
                }
                Ok(Effect::Quiet)
            },
        }
    }

    /// Apply the decode outcome awaited after `Effect::LoadSource`. On
    /// success the track starts playing from the head; on failure the
    /// engine stays empty and the decode error is surfaced. A stale
    /// outcome — the engine is no longer empty, or the selection is gone —
    /// is discarded.
    pub fn resolve_load(&mut self, outcome: Result<TrackInfo, LoadError>) -> (r: Result<
        (),
        EngineError,
    >)
        requires
            old(self).wf(),
        ensures
            final(self).wf(),
            final(self)@ == next_load(old(self)@, outcome),
            r == (match load_error(old(self)@, outcome) {
                Some(e) => Err::<(), EngineError>(EngineError::Load(e)),
                None => Ok::<(), EngineError>(()),
            }),
    {
        if self.state.status == Status::Empty && self.state.source_path.is_some() {
            match self.sink.load(outcome) {
                Ok(duration_ms) => {
                    self.sink.play();
                    self.state.status = Status::Playing;
                    self.state.total_duration = duration_ms;
                    Ok(())
                },
                Err(e) => Err(EngineError::Load(e)),
            }
        } else {
            Ok(())
        }
    }

    /// The current transport status.
    pub fn status(&self) -> (r: Status)
        ensures
            r == self@.status,
    {
        self.state.status
    }

    /// The playback head of the device model, in milliseconds.
    pub fn get_pos(&self) -> (r: u64)
        ensures
            r == self@.position,
    {
        self.sink.get_pos()
    }

    /// The output volume, in hundredths of unity gain.
    pub fn get_volume(&self) -> (r: u32)
        ensures
            r == self@.volume,
    {
        self.state.volume
    }

    /// The cached total duration, in milliseconds; `0` means unknown.
    pub fn total_duration(&self) -> (r: u64)
        ensures
            r == self@.total_duration,
    {
        self.state.total_duration
    }

    /// The currently selected source file, if any.
    pub fn source_path(&self) -> (r: &Option<String>)
        ensures
            r.deep_view() == self@.source_path,
    {
        &self.state.source_path
    }

    /// The tick scheduler's rule: periodic refresh intents run exactly
    /// while the engine is playing, and stop the moment it is not.
    pub fn tick_active(&self) -> (r: bool)
        ensures
            r == (self@.status is Playing),
    {
        self.state.status == Status::Playing
    }
}

} // verus!
