//! The laws of the state machine, proved once and for all over the
//! transition relation of the `router` module.

use vstd::prelude::*;

use crate::errors::{EngineError, LoadError, SeekError, VolumeError};
use crate::router::{
    model_wf, next, next_load, step_effect, step_error, EffectModel, Intent, Metadata, Model,
};
use crate::sink::{TrackInfo, VOLUME_MAX};

verus! {

/// An accepted volume reads back exactly as it was set, whatever else the
/// engine is doing; one above the ceiling fails with `OutOfRange` and
/// leaves the whole engine unchanged.
pub proof fn lemma_volume_round_trip(m: Model, v: u32)
    ensures
        v <= VOLUME_MAX ==> next(m, Intent::Volume(v)).volume == v && step_error(
            m,
            Intent::Volume(v),
        ) is None,
        v > VOLUME_MAX ==> next(m, Intent::Volume(v)) == m && step_error(m, Intent::Volume(v))
            == Some(EngineError::Volume(VolumeError::OutOfRange)),
{
    if v > VOLUME_MAX {
        assert(next(m, Intent::Volume(v)) =~= m);
    }
}

/// While a seekable track is loaded, a seek within the total duration
/// succeeds and puts the head exactly there; one beyond it fails with
/// `OutOfRange` and moves nothing.
pub proof fn lemma_seek_reflects_position(m: Model, p: u64)
    requires
        m.status is Playing || m.status is Paused,
        m.seekable,
    ensures
        p <= m.total_duration ==> next(m, Intent::Seek(p)).position == p && step_error(
            m,
            Intent::Seek(p),
        ) is None,
        p > m.total_duration ==> next(m, Intent::Seek(p)) == m && step_error(m, Intent::Seek(p))
            == Some(EngineError::Seek(SeekError::OutOfRange)),
{
    if p > m.total_duration {
        assert(next(m, Intent::Seek(p)) =~= m);
    }
}

/// Pausing twice in a row leaves the engine exactly as pausing once does.
pub proof fn lemma_pause_idempotent(m: Model)
    ensures
        next(next(m, Intent::Pause), Intent::Pause) == next(m, Intent::Pause),
{
    assert(next(next(m, Intent::Pause), Intent::Pause) =~= next(m, Intent::Pause));
}

/// Stopping twice in a row leaves the engine exactly as stopping once does.
pub proof fn lemma_stop_idempotent(m: Model)
    ensures
        next(next(m, Intent::Stop), Intent::Stop) == next(m, Intent::Stop),
{
    assert(next(next(m, Intent::Stop), Intent::Stop) =~= next(m, Intent::Stop));
}

/// From any reachable state, a stop reaches the empty status, with no
/// duration and no position left behind; a loaded track's selection is
/// cleared with it.
pub proof fn lemma_stop_reaches_empty(m: Model)
    requires
        model_wf(m),
    ensures
        next(m, Intent::Stop).status is Empty,
        next(m, Intent::Stop).total_duration == 0,
        next(m, Intent::Stop).position == 0,
        m.status !is Empty ==> next(m, Intent::Stop).source_path is None,
{
}

/// No intent moves an empty engine out of the empty status; the transport
/// intents do not change it at all. Playback can begin only through a
/// decode outcome, and only while a source is selected.
pub proof fn lemma_empty_is_stable(m: Model, intent: Intent)
    requires
        m.status is Empty,
    ensures
        next(m, intent).status is Empty,
        intent is Play || intent is Pause || intent is Stop || intent is Seek || intent is Tick
            || intent is PickFile ==> next(m, intent) == m,
{
    if intent is Play || intent is Pause || intent is Stop || intent is Seek || intent is Tick
        || intent is PickFile {
        assert(next(m, intent) =~= m);
    }
}

/// From an empty engine, a decode outcome starts playback exactly when a
/// source is selected and the decode succeeded; without a selection it
/// changes nothing, and a failed decode leaves the engine empty.
pub proof fn lemma_load_from_empty(m: Model, outcome: Result<TrackInfo, LoadError>)
    requires
        m.status is Empty,
    ensures
        next_load(m, outcome).status is Playing <==> (m.source_path is Some && outcome is Ok),
        m.source_path is None ==> next_load(m, outcome) == m,
        outcome is Err ==> next_load(m, outcome) == m,
{
}

/// From an empty engine, only a play with a known source asks for a decode;
/// a play without one asks for nothing.
pub proof fn lemma_play_from_empty_effect(m: Model)
    requires
        m.status is Empty,
    ensures
        m.source_path is Some ==> step_effect(m, Intent::Play) == EffectModel::LoadSource(
            m.source_path->0,
        ),
        m.source_path is None ==> step_effect(m, Intent::Play) == EffectModel::Quiet,
{
}

/// Staleness: a metadata result tagged with a path other than the current
/// selection alters nothing — neither cover nor duration of the newer
/// selection.
pub proof fn lemma_stale_result_discarded(m: Model, path: String, meta: Metadata)
    requires
        m.source_path != Some(path@),
    ensures
        next(m, Intent::MetadataLoaded(path, meta)) == m,
{
}

/// A stale decode outcome — delivered when the engine is no longer empty or
/// the selection is gone — alters nothing either.
pub proof fn lemma_stale_load_discarded(m: Model, outcome: Result<TrackInfo, LoadError>)
    requires
        m.status !is Empty || m.source_path is None,
    ensures
        next_load(m, outcome) == m,
{
}

/// Every intent preserves the engine's invariant.
pub proof fn lemma_next_preserves_wf(m: Model, intent: Intent)
    requires
        model_wf(m),
    ensures
        model_wf(next(m, intent)),
{
}

/// Every decode outcome preserves the engine's invariant.
pub proof fn lemma_next_load_preserves_wf(m: Model, outcome: Result<TrackInfo, LoadError>)
    requires
        model_wf(m),
    ensures
        model_wf(next_load(m, outcome)),
{
}

} // verus!
