use sonor::snapshot::{Snapshot, SnapshotStep};
use sonor::track::TrackInfo;

#[test]
fn test_snapshot_setters() {
    let mut snap = Snapshot::new();
    snap.set_volume(12);
    snap.set_is_playing(true);
    snap.set_track_info(TrackInfo::new(3, 180, 42));
    snap.set_transport_uri("http://example/a.mp3".to_string());
    assert_eq!(snap.volume, Some(12));
    assert_eq!(snap.is_playing, Some(true));
    assert_eq!(snap.track_info.unwrap().track_no(), 3);
    assert_eq!(snap.transport_uri.as_deref(), Some("http://example/a.mp3"));
}

#[test]
fn test_apply_steps_in_order() {
    let mut snap = Snapshot::new();
    snap.set_volume(12);
    snap.set_transport_uri("http://example/a.mp3".to_string());
    snap.set_track_info(TrackInfo::new(3, 180, 42));
    snap.set_is_playing(true);
    let steps = snap.apply_steps();
    assert_eq!(steps.len(), 5);
    assert!(matches!(steps[0], SnapshotStep::SetVolume(12)));
    assert!(matches!(steps[1], SnapshotStep::SetTransportUri(_)));
    assert!(matches!(steps[2], SnapshotStep::SeekTrack(3)));
    assert!(matches!(steps[3], SnapshotStep::SeekTime(42)));
    assert!(matches!(steps[4], SnapshotStep::Play));
}

#[test]
fn test_apply_steps_skips_vendor_line_in() {
    let mut snap = Snapshot::new();
    snap.set_transport_uri("x-sonos-vli:stream".to_string());
    snap.set_is_playing(false);
    let steps = snap.apply_steps();
    assert_eq!(steps.len(), 1);
    assert!(matches!(steps[0], SnapshotStep::Pause));
}

#[test]
fn test_empty_snapshot_has_no_steps() {
    let snap = Snapshot::new();
    assert!(snap.apply_steps().is_empty());
}

#[test]
fn test_from_parts() {
    let snap = Snapshot::from_parts(7, None, false, None);
    assert_eq!(snap.volume, Some(7));
    assert_eq!(snap.is_playing, Some(false));
    assert!(snap.track_info.is_none());
    assert!(snap.transport_uri.is_none());
    let steps = snap.apply_steps();
    assert_eq!(steps.len(), 2);
    assert!(matches!(steps[0], SnapshotStep::SetVolume(7)));
    assert!(matches!(steps[1], SnapshotStep::Pause));
}

#[test]
fn test_track_info_getters() {
    let t = TrackInfo::new(4, 240, 9);
    assert_eq!(t.track_no(), 4);
    assert_eq!(t.duration(), 240);
    assert_eq!(t.elapsed(), 9);
}
