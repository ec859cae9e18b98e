use rusty_player::errors::{EngineError, LoadError, SeekError, VolumeError};
use rusty_player::router::{CommandRouter, Effect, Intent, Metadata};
use rusty_player::sink::TrackInfo;
use rusty_player::state::Status;

fn loaded_track() -> TrackInfo {
    TrackInfo { duration_ms: 180_000, seekable: true }
}

/// Build an engine that is playing `path` with the given track info.
fn playing_engine(path: &str, info: TrackInfo) -> CommandRouter {
    let mut r = CommandRouter::new();
    let eff = r.update(Intent::FileSelected(Some(path.to_string()))).unwrap();
    assert!(matches!(eff, Effect::LoadMetadata(_)));
    let eff = r.update(Intent::Play).unwrap();
    assert!(matches!(eff, Effect::LoadSource(_)));
    r.resolve_load(Ok(info)).unwrap();
    assert_eq!(r.status(), Status::Playing);
    r
}

#[test]
fn fresh_engine_is_empty_at_default_volume() {
    let r = CommandRouter::new();
    assert_eq!(r.status(), Status::Empty);
    assert_eq!(r.get_volume(), 100);
    assert_eq!(r.total_duration(), 0);
    assert_eq!(r.get_pos(), 0);
    assert!(r.source_path().is_none());
    assert!(!r.tick_active());
}

#[test]
fn volume_round_trip_in_range() {
    // Every accepted volume reads back exactly.
    for v in [0u32, 1, 50, 100, 149, 150] {
        let mut r = CommandRouter::new();
        assert!(r.update(Intent::Volume(v)).is_ok());
        assert_eq!(r.get_volume(), v);
    }
}

#[test]
fn volume_above_ceiling_is_rejected_and_unchanged() {
    let mut r = CommandRouter::new();
    r.update(Intent::Volume(120)).unwrap();
    for v in [151u32, 200, u32::MAX] {
        let e = r.update(Intent::Volume(v)).unwrap_err();
        assert_eq!(e, EngineError::Volume(VolumeError::OutOfRange));
        assert_eq!(r.get_volume(), 120);
    }
}

#[test]
fn volume_on_fresh_engine_rejected_keeps_default() {
    // A raise to 2.0x on a freshly started engine fails; the default 1.0
    // survives.
    let mut r = CommandRouter::new();
    let e = r.update(Intent::Volume(200)).unwrap_err();
    assert_eq!(e, EngineError::Volume(VolumeError::OutOfRange));
    assert_eq!(r.get_volume(), 100);
}

#[test]
fn seek_in_range_moves_the_head() {
    let mut r = playing_engine("track.flac", loaded_track());
    for p in [0u64, 1, 90_000, 180_000] {
        assert!(r.update(Intent::Seek(p)).is_ok());
        assert_eq!(r.get_pos(), p);
    }
}

#[test]
fn seek_beyond_total_fails_and_keeps_position() {
    let mut r = playing_engine("track.flac", loaded_track());
    r.update(Intent::Seek(90_000)).unwrap();
    let e = r.update(Intent::Seek(180_001)).unwrap_err();
    assert_eq!(e, EngineError::Seek(SeekError::OutOfRange));
    assert_eq!(r.get_pos(), 90_000);
}

#[test]
fn seek_on_unseekable_stream_fails() {
    let mut r = playing_engine("stream.ogg", TrackInfo { duration_ms: 60_000, seekable: false });
    let e = r.update(Intent::Seek(1_000)).unwrap_err();
    assert_eq!(e, EngineError::Seek(SeekError::Unsupported));
    assert_eq!(r.get_pos(), 0);
}

#[test]
fn seek_while_empty_is_a_guarded_no_op() {
    let mut r = CommandRouter::new();
    let eff = r.update(Intent::Seek(5_000)).unwrap();
    assert!(matches!(eff, Effect::Quiet));
    assert_eq!(r.status(), Status::Empty);
    assert_eq!(r.get_pos(), 0);
}

fn observable(r: &CommandRouter) -> (Status, u64, u64, u32, Option<String>, bool) {
    let s = r.snapshot();
    (s.status, s.position, s.total_duration, s.volume, s.source_path, s.cover.is_some())
}

#[test]
fn pause_twice_equals_pause_once() {
    let mut r = playing_engine("track.flac", loaded_track());
    r.update(Intent::Seek(42_000)).unwrap();
    r.update(Intent::Pause).unwrap();
    let once = observable(&r);
    r.update(Intent::Pause).unwrap();
    assert_eq!(observable(&r), once);
}

#[test]
fn stop_twice_equals_stop_once() {
    let mut r = playing_engine("track.flac", loaded_track());
    r.update(Intent::Stop).unwrap();
    let once = observable(&r);
    r.update(Intent::Stop).unwrap();
    assert_eq!(observable(&r), once);
}

#[test]
fn stop_reaches_empty_from_every_reachable_status() {
    // Playing.
    let mut r = playing_engine("track.flac", loaded_track());
    r.update(Intent::Stop).unwrap();
    assert_eq!(r.status(), Status::Empty);
    assert!(r.source_path().is_none());
    assert_eq!(r.total_duration(), 0);

    // Paused.
    let mut r = playing_engine("track.flac", loaded_track());
    r.update(Intent::Pause).unwrap();
    r.update(Intent::Stop).unwrap();
    assert_eq!(r.status(), Status::Empty);

    // Empty.
    let mut r = CommandRouter::new();
    r.update(Intent::Stop).unwrap();
    assert_eq!(r.status(), Status::Empty);
}

#[test]
fn transport_intents_leave_an_empty_engine_unchanged() {
    let mut r = CommandRouter::new();
    for intent in [Intent::Play, Intent::Pause, Intent::Stop, Intent::Seek(10), Intent::Tick] {
        let before = observable(&r);
        let eff = r.update(intent).unwrap();
        assert!(matches!(eff, Effect::Quiet));
        assert_eq!(observable(&r), before);
    }
}

#[test]
fn play_from_empty_without_source_is_a_no_op() {
    let mut r = CommandRouter::new();
    let eff = r.update(Intent::Play).unwrap();
    assert!(matches!(eff, Effect::Quiet));
    assert_eq!(r.status(), Status::Empty);
}

#[test]
fn play_while_playing_is_a_no_op() {
    let mut r = playing_engine("track.flac", loaded_track());
    r.update(Intent::Seek(5_000)).unwrap();
    let eff = r.update(Intent::Play).unwrap();
    assert!(matches!(eff, Effect::Quiet));
    assert_eq!(r.status(), Status::Playing);
    assert_eq!(r.get_pos(), 5_000);
}

#[test]
fn pause_then_play_resumes_at_the_same_position() {
    let mut r = playing_engine("track.flac", loaded_track());
    r.update(Intent::Seek(30_000)).unwrap();
    r.update(Intent::Pause).unwrap();
    assert_eq!(r.status(), Status::Paused);
    assert_eq!(r.get_pos(), 30_000);
    r.update(Intent::Play).unwrap();
    assert_eq!(r.status(), Status::Playing);
    assert_eq!(r.get_pos(), 30_000);
}

#[test]
fn failed_load_surfaces_error_and_stays_empty() {
    for err in [LoadError::NotFound, LoadError::UnsupportedFormat, LoadError::DecodeFailure] {
        let mut r = CommandRouter::new();
        r.update(Intent::FileSelected(Some("missing.mp3".to_string()))).unwrap();
        let eff = r.update(Intent::Play).unwrap();
        assert!(matches!(eff, Effect::LoadSource(_)));
        assert_eq!(r.resolve_load(Err(err)).unwrap_err(), EngineError::Load(err));
        assert_eq!(r.status(), Status::Empty);
        // The selection survives, so the user can retry.
        assert_eq!(r.source_path().as_deref(), Some("missing.mp3"));
    }
}

#[test]
fn pick_file_asks_for_the_dialog_and_changes_nothing() {
    let mut r = CommandRouter::new();
    let before = observable(&r);
    let eff = r.update(Intent::PickFile).unwrap();
    assert!(matches!(eff, Effect::OpenFilePicker));
    assert_eq!(observable(&r), before);
}

#[test]
fn cancelled_file_pick_changes_nothing() {
    let mut r = playing_engine("track.flac", loaded_track());
    let before = observable(&r);
    let eff = r.update(Intent::FileSelected(None)).unwrap();
    assert!(matches!(eff, Effect::Quiet));
    assert_eq!(observable(&r), before);
}

#[test]
fn file_selection_records_path_clears_cover_and_requests_metadata() {
    let mut r = playing_engine("a.flac", loaded_track());
    let meta = Metadata { duration_ms: None, cover: Some(vec![1, 2, 3]) };
    r.update(Intent::MetadataLoaded("a.flac".to_string(), meta)).unwrap();
    assert!(r.snapshot().cover.is_some());

    let eff = r.update(Intent::FileSelected(Some("b.flac".to_string()))).unwrap();
    match eff {
        Effect::LoadMetadata(p) => assert_eq!(p, "b.flac"),
        _ => panic!("expected a metadata load request"),
    }
    assert_eq!(r.source_path().as_deref(), Some("b.flac"));
    assert!(r.snapshot().cover.is_none());
}

#[test]
fn fresh_metadata_sets_cover() {
    let mut r = playing_engine("track.flac", loaded_track());
    let meta = Metadata { duration_ms: None, cover: Some(vec![9, 9]) };
    r.update(Intent::MetadataLoaded("track.flac".to_string(), meta)).unwrap();
    assert_eq!(r.snapshot().cover, Some(vec![9, 9]));
}

#[test]
fn fresh_metadata_fills_unknown_duration_only() {
    // Unknown duration (0) is filled in from the tags.
    let mut r = playing_engine("track.flac", TrackInfo { duration_ms: 0, seekable: true });
    let meta = Metadata { duration_ms: Some(240_000), cover: None };
    r.update(Intent::MetadataLoaded("track.flac".to_string(), meta)).unwrap();
    assert_eq!(r.total_duration(), 240_000);

    // A duration the decoder derived is not overridden.
    let mut r = playing_engine("track.flac", loaded_track());
    let meta = Metadata { duration_ms: Some(240_000), cover: None };
    r.update(Intent::MetadataLoaded("track.flac".to_string(), meta)).unwrap();
    assert_eq!(r.total_duration(), 180_000);
}

#[test]
fn stale_metadata_for_a_superseded_path_is_discarded() {
    // A load for path A is in flight; the user selects B before it
    // resolves. The A-result must not touch B's cover or duration.
    let mut r = CommandRouter::new();
    r.update(Intent::FileSelected(Some("a.flac".to_string()))).unwrap();
    r.update(Intent::FileSelected(Some("b.flac".to_string()))).unwrap();
    r.update(Intent::Play).unwrap();
    r.resolve_load(Ok(TrackInfo { duration_ms: 0, seekable: true })).unwrap();

    let stale = Metadata { duration_ms: Some(99_000), cover: Some(vec![4, 5, 6]) };
    let eff = r.update(Intent::MetadataLoaded("a.flac".to_string(), stale)).unwrap();
    assert!(matches!(eff, Effect::Quiet));
    assert!(r.snapshot().cover.is_none());
    assert_eq!(r.total_duration(), 0);
    assert_eq!(r.source_path().as_deref(), Some("b.flac"));
}

#[test]
fn stale_decode_outcome_is_discarded() {
    let mut r = playing_engine("track.flac", loaded_track());
    let before = observable(&r);
    assert!(r.resolve_load(Ok(TrackInfo { duration_ms: 1, seekable: false })).is_ok());
    assert_eq!(observable(&r), before);
}

#[test]
fn tick_changes_nothing_and_runs_only_while_playing() {
    let mut r = playing_engine("track.flac", loaded_track());
    assert!(r.tick_active());
    let before = observable(&r);
    let eff = r.update(Intent::Tick).unwrap();
    assert!(matches!(eff, Effect::Quiet));
    assert_eq!(observable(&r), before);

    r.update(Intent::Pause).unwrap();
    assert!(!r.tick_active());
    r.update(Intent::Stop).unwrap();
    assert!(!r.tick_active());
}

#[test]
fn full_session_scenario() {
    // Starts empty.
    let mut r = CommandRouter::new();
    assert_eq!(r.status(), Status::Empty);

    // The picker resolves to a three-minute track.
    let eff = r.update(Intent::PickFile).unwrap();
    assert!(matches!(eff, Effect::OpenFilePicker));
    let eff = r.update(Intent::FileSelected(Some("track.flac".to_string()))).unwrap();
    assert!(matches!(eff, Effect::LoadMetadata(_)));

    // Play loads and starts from the head.
    let eff = r.update(Intent::Play).unwrap();
    match eff {
        Effect::LoadSource(p) => assert_eq!(p, "track.flac"),
        _ => panic!("expected a decode request"),
    }
    r.resolve_load(Ok(TrackInfo { duration_ms: 180_000, seekable: true })).unwrap();
    assert_eq!(r.status(), Status::Playing);
    assert_eq!(r.get_pos(), 0);
    assert!(r.tick_active());

    // Position increases over ticks while playing.
    r.update(Intent::Tick).unwrap();
    r.sink.advance(100);
    r.update(Intent::Tick).unwrap();
    r.sink.advance(100);
    assert_eq!(r.get_pos(), 200);

    // Seek to 90 seconds.
    r.update(Intent::Seek(90_000)).unwrap();
    assert_eq!(r.get_pos(), 90_000);

    // Pause freezes the position.
    r.update(Intent::Pause).unwrap();
    r.sink.advance(100);
    assert_eq!(r.get_pos(), 90_000);

    // Stop empties everything.
    r.update(Intent::Stop).unwrap();
    assert_eq!(r.status(), Status::Empty);
    assert!(r.source_path().is_none());
    assert_eq!(r.total_duration(), 0);
    assert_eq!(r.get_pos(), 0);
}
