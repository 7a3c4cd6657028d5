//! Captured playback state and its restoration plan.

use vstd::prelude::*;

verus! {

use crate::track::TrackInfo;
use crate::utils::has_prefix;

/// A snapshot of the state a speaker is in right now: volume, the resource
/// being played, the position in it, and whether playback is running.
/// Useful for announcing some clip at a lower volume, then later resuming
/// where you left off.
#[derive(Clone, Debug, Default)]
pub struct Snapshot {
    /// Captured volume, if any.
    pub volume: Option<u32>,
    /// Whether the speaker was playing when captured.
    pub is_playing: Option<bool>,
    /// Captured track position, if a track was playing.
    pub track_info: Option<TrackInfo>,
    /// Captured transport resource, if any.
    pub transport_uri: Option<String>,
}

/// One step of restoring a snapshot on a device.
#[derive(Clone, Debug)]
pub enum SnapshotStep {
    /// Set the volume.
    SetVolume(u32),
    /// Point the transport at a resource.
    SetTransportUri(String),
    /// Seek to a track number.
    SeekTrack(u32),
    /// Seek to a position, in seconds, within the track.
    SeekTime(u32),
    /// Pause playback.
    Pause,
    /// Start playback.
    Play,
}

/// Restoration steps owed to the captured volume.
pub open spec fn spec_volume_steps(s: Snapshot) -> Seq<SnapshotStep> {
    match s.volume {
        Some(v) => seq![SnapshotStep::SetVolume(v)],
        None => Seq::empty(),
    }
}

/// Restoration steps owed to the captured transport resource.  A vendor
/// line-in resource (prefix `x-sonos-vli`) cannot be restored and is
/// skipped.
pub open spec fn spec_uri_steps(s: Snapshot) -> Seq<SnapshotStep> {
    match s.transport_uri {
        Some(u) => if has_prefix(u@, "x-sonos-vli"@) {
            Seq::empty()
        } else {
            seq![SnapshotStep::SetTransportUri(u)]
        },
        None => Seq::empty(),
    }
}

/// Restoration steps owed to the captured track position.
pub open spec fn spec_track_steps(s: Snapshot) -> Seq<SnapshotStep> {
    match s.track_info {
        Some(t) => seq![SnapshotStep::SeekTrack(t.track_no), SnapshotStep::SeekTime(t.elapsed)],
        None => Seq::empty(),
    }
}

/// Restoration steps owed to the captured playback state.
pub open spec fn spec_playing_steps(s: Snapshot) -> Seq<SnapshotStep> {
    match s.is_playing {
        Some(true) => seq![SnapshotStep::Play],
        Some(false) => seq![SnapshotStep::Pause],
        None => Seq::empty(),
    }
}

/// The full restoration plan: volume first, then transport resource, then
/// track position, then play or pause.
pub open spec fn spec_apply_steps(s: Snapshot) -> Seq<SnapshotStep> {
    spec_volume_steps(s) + spec_uri_steps(s) + spec_track_steps(s) + spec_playing_steps(s)
}

impl Snapshot {
    /// An empty snapshot: nothing captured, nothing to restore.
    pub fn new() -> (r: Snapshot)
        ensures
            r.volume is None,
            r.is_playing is None,
            r.track_info is None,
            r.transport_uri is None,
    {
        Snapshot { volume: None, is_playing: None, track_info: None, transport_uri: None }
    }

    /// Assembles a snapshot from what was read off a device.
    pub fn from_parts(
        volume: u32,
        track_info: Option<TrackInfo>,
        is_playing: bool,
        transport_uri: Option<String>,
    ) -> (r: Snapshot)
        ensures
            r.volume == Some(volume),
            r.is_playing == Some(is_playing),
            r.track_info == track_info,
            r.transport_uri == transport_uri,
    {
        Snapshot { volume: Some(volume), is_playing: Some(is_playing), track_info, transport_uri }
    }

    /// Sets the volume of the snapshot.
    pub fn set_volume(&mut self, volume: u32)
        ensures
            final(self).volume == Some(volume),
            final(self).is_playing == old(self).is_playing,
            final(self).track_info == old(self).track_info,
            final(self).transport_uri == old(self).transport_uri,
    {
        self.volume = Some(volume);
    }

    /// Sets whether the speaker is playing.
    pub fn set_is_playing(&mut self, is_playing: bool)
        ensures
            final(self).is_playing == Some(is_playing),
            final(self).volume == old(self).volume,
            final(self).track_info == old(self).track_info,
            final(self).transport_uri == old(self).transport_uri,
    {
        self.is_playing = Some(is_playing);
    }

    /// Specifies the current track position.
    pub fn set_track_info(&mut self, track_info: TrackInfo)
        ensures
            final(self).track_info == Some(track_info),
            final(self).volume == old(self).volume,
            final(self).is_playing == old(self).is_playing,
            final(self).transport_uri == old(self).transport_uri,
    {
        self.track_info = Some(track_info);
    }

    /// Specifies the current transport resource.
    pub fn set_transport_uri(&mut self, transport_uri: String)
        ensures
            final(self).transport_uri == Some(transport_uri),
            final(self).volume == old(self).volume,
            final(self).is_playing == old(self).is_playing,
            final(self).track_info == old(self).track_info,
    {
        self.transport_uri = Some(transport_uri);
    }

    /// The ordered remote steps that restore this snapshot on a device:
    /// volume, then transport resource (vendor line-in resources are
    /// skipped), then track position, then play or pause.
    pub fn apply_steps(&self) -> (steps: Vec<SnapshotStep>)
        ensures
            steps@ == spec_apply_steps(*self),
    {
        let mut steps: Vec<SnapshotStep> = Vec::new();
        match &self.volume {
            Some(v) => steps.push(SnapshotStep::SetVolume(*v)),
            None => (),
        }
        proof {
            assert(steps@ =~= spec_volume_steps(*self));
        }
        match &self.transport_uri {
            Some(u) => {
                if !crate::utils::str_has_prefix(u.as_str(), "x-sonos-vli") {
                    steps.push(SnapshotStep::SetTransportUri(u.clone()));
                }
            },
            None => (),
        }
        proof {
            assert(steps@ =~= spec_volume_steps(*self) + spec_uri_steps(*self));
        }
        match &self.track_info {
            Some(t) => {
                steps.push(SnapshotStep::SeekTrack(t.track_no));
                steps.push(SnapshotStep::SeekTime(t.elapsed));
            },
            None => (),
        }
        proof {
            assert(steps@ =~= spec_volume_steps(*self) + spec_uri_steps(*self) + spec_track_steps(
                *self,
            ));
        }
        match &self.is_playing {
            Some(true) => steps.push(SnapshotStep::Play),
            Some(false) => steps.push(SnapshotStep::Pause),
            None => (),
        }
        proof {
            assert(steps@ =~= spec_apply_steps(*self));
        }
        steps
    }
}

} // verus!
