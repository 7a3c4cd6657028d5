//! The command router: zone actions and their routing to a coordinator.

use vstd::prelude::*;

verus! {

use crate::Error;
use crate::controller::{Controller, SpeakerData};
use crate::datatypes::RepeatMode;
use crate::mediasource::MediaSource;
use crate::snapshot::Snapshot;
use crate::speaker::SpeakerInfo;
use crate::track::Track;
use crate::types::Response;
use crate::utils::{digits_val, eq_ignore_ascii_case, parse_u32, str_ieq, valid_u32_digits};

/// A user-issued operation on a zone, named by the zone's display name.
#[derive(Clone, Debug)]
pub enum ZoneAction {
    /// Is a zone of this name registered?  Answered from the registry
    /// alone; no coordinator resolution is involved.
    Exists,
    /// Replace what the zone is playing with this media.
    PlayNow(MediaSource),
    /// Enqueue this media right after the current track.
    QueueAsNext(MediaSource),
    /// Start playback.
    Play,
    /// Pause playback.
    Pause,
    /// Pause when playing, play when paused.
    PlayPause,
    /// Skip to the next track.
    NextTrack,
    /// Skip to the previous track.
    PreviousTrack,
    /// Seek to a position, in seconds, within the current track.
    SeekTime(u32),
    /// Seek to a track number; the first track is number one.
    SeekTrack(u32),
    /// Seek forward or backward by a number of tracks.
    SeekRelTrack(i32),
    /// Set the repeat mode, keeping the shuffle flag.
    SetRepeat(RepeatMode),
    /// Set the shuffle flag, keeping the repeat mode.
    SetShuffle(bool),
    /// Set the crossfade flag.
    SetCrossfade(bool),
    /// Set repeat mode and shuffle flag together.
    SetPlayMode(RepeatMode, bool),
    /// Empty the zone's queue.
    ClearQueue,
    /// Read the zone's queue.
    GetQueue,
    /// Capture the zone's playback state.
    TakeSnapshot,
    /// Restore a captured playback state.
    ApplySnapshot(Snapshot),
}

/// The remote operation the router directs at a zone's coordinator.  The
/// embedding application carries it out over the network.
#[derive(Clone, Debug)]
pub enum RemoteCall {
    /// Start playback.
    Play,
    /// Pause playback.
    Pause,
    /// Read the playback state, then pause or play accordingly (see
    /// [`play_pause_choice`]).
    PlayPause,
    /// Skip to the next track.
    NextTrack,
    /// Skip to the previous track.
    PreviousTrack,
    /// Seek to a position, in seconds, within the current track.
    SeekTime(u32),
    /// Seek to a track number.
    SeekTrack(u32),
    /// Seek by a signed number of tracks.  When the coordinator's cached
    /// status held a current track number it is given here; otherwise the
    /// application reads the track number from the device first.  Either
    /// way the absolute target comes from [`seek_rel_target`].
    SeekRelTrack {
        /// How many tracks to move by.
        delta: i32,
        /// The current track number, from the cached status, if present
        /// and numeric.
        cached_track: Option<u32>,
    },
    /// Set the repeat mode, keeping the device's shuffle flag.
    SetRepeat(RepeatMode),
    /// Set the shuffle flag, keeping the device's repeat mode.
    SetShuffle(bool),
    /// Set the crossfade flag.
    SetCrossfade(bool),
    /// Set repeat mode and shuffle flag together.
    SetPlayMode(RepeatMode, bool),
    /// Empty the coordinator's queue.
    ClearQueue,
    /// Read the coordinator's queue.
    GetQueue,
    /// Capture the coordinator's playback state.
    TakeSnapshot,
    /// Restore a captured playback state.
    ApplySnapshot(Snapshot),
    /// Resolve this media and replace what is playing with it; a
    /// resolution miss yields a negative reply without any remote call.
    PlayMedia(MediaSource),
    /// Resolve this media and enqueue it after the current track, read
    /// from the cached status where present.
    QueueMedia {
        /// The media to resolve and enqueue.
        media: MediaSource,
        /// The current track number, from the cached status, if present
        /// and numeric.
        cached_track: Option<u32>,
    },
}

/// What the router decides for one command.
#[derive(Clone, Debug)]
pub enum RoutePlan {
    /// Reply immediately, without touching the network.
    Reply(Response),
    /// Direct a remote call at the resolved coordinator.
    Invoke {
        /// Descriptor of the coordinator to call.
        coordinator: SpeakerInfo,
        /// The operation to carry out against it.
        call: RemoteCall,
    },
}

/// How a remote call ended, as the application reports it back.
#[derive(Clone, Debug)]
pub enum CallOutcome {
    /// The call succeeded with nothing to return.
    Completed,
    /// The call failed; the reason is logged, not forwarded.
    Failed,
    /// The call succeeded with a captured playback state.
    GotSnapshot(Snapshot),
    /// The call succeeded with the coordinator's queue.
    GotQueue(Vec<Track>),
}

/// Whether `i` is the first entry of a status map whose key is `key` (up
/// to ASCII case).
pub open spec fn is_first_status_match(data: Seq<(String, String)>, key: Seq<char>, i: int) -> bool {
    &&& 0 <= i < data.len()
    &&& str_ieq(data[i].0@, key)
    &&& forall|j: int| 0 <= j < i ==> !str_ieq((#[trigger] data[j].0)@, key)
}

/// The current track number a cached status map holds: the value of its
/// first `CurrentTrack` entry, where that value is a well-formed number.
pub open spec fn spec_cached_track(data: Seq<(String, String)>) -> Option<u32> {
    if exists|i: int| #[trigger] is_first_status_match(data, "CurrentTrack"@, i) {
        let i = choose|i: int| #[trigger] is_first_status_match(data, "CurrentTrack"@, i);
        if valid_u32_digits(data[i].1@) {
            Some(digits_val(data[i].1@) as u32)
        } else {
            None
        }
    } else {
        None
    }
}

/// Reads the current track number out of a record's cached transport
/// status, where the cache holds one.
pub fn cached_current_track(sd: &SpeakerData) -> (r: Option<u32>)
    ensures
        r == spec_cached_track(sd.transport_data@),
{
    let data = &sd.transport_data;
    let mut i: usize = 0;
    while i < data.len()
        invariant
            data == &sd.transport_data,
            i <= data@.len(),
            forall|j: int| 0 <= j < i ==> !str_ieq((#[trigger] data@[j].0)@, "CurrentTrack"@),
        decreases data@.len() - i,
    {
        if eq_ignore_ascii_case(data[i].0.as_str(), "CurrentTrack") {
            proof {
                assert(is_first_status_match(data@, "CurrentTrack"@, i as int));
                let i0 = choose|i0: int| #[trigger] is_first_status_match(
                    data@,
                    "CurrentTrack"@,
                    i0,
                );
                if i0 < i as int {
                    assert(!str_ieq(data@[i0].0@, "CurrentTrack"@));
                }
                if i0 > i as int {
                    assert(!str_ieq(data@[i as int].0@, "CurrentTrack"@));
                }
                assert(i0 == i as int);
            }
            return parse_u32(data[i].1.as_str());
        }
        i += 1;
    }
    proof {
        assert forall|i0: int| !(#[trigger] is_first_status_match(
            data@,
            "CurrentTrack"@,
            i0,
        )) by {}
    }
    None
}

/// The remote call a zone action turns into, given the resolved
/// coordinator's record.
pub open spec fn spec_call_for(action: ZoneAction, sd: SpeakerData) -> RemoteCall {
    match action {
        ZoneAction::Exists => RemoteCall::Play,
        ZoneAction::PlayNow(media) => RemoteCall::PlayMedia(media),
        ZoneAction::QueueAsNext(media) => RemoteCall::QueueMedia {
            media,
            cached_track: spec_cached_track(sd.transport_data@),
        },
        ZoneAction::Play => RemoteCall::Play,
        ZoneAction::Pause => RemoteCall::Pause,
        ZoneAction::PlayPause => RemoteCall::PlayPause,
        ZoneAction::NextTrack => RemoteCall::NextTrack,
        ZoneAction::PreviousTrack => RemoteCall::PreviousTrack,
        ZoneAction::SeekTime(seconds) => RemoteCall::SeekTime(seconds),
        ZoneAction::SeekTrack(number) => RemoteCall::SeekTrack(number),
        ZoneAction::SeekRelTrack(delta) => RemoteCall::SeekRelTrack {
            delta,
            cached_track: spec_cached_track(sd.transport_data@),
        },
        ZoneAction::SetRepeat(mode) => RemoteCall::SetRepeat(mode),
        ZoneAction::SetShuffle(state) => RemoteCall::SetShuffle(state),
        ZoneAction::SetCrossfade(state) => RemoteCall::SetCrossfade(state),
        ZoneAction::SetPlayMode(mode, shuffle) => RemoteCall::SetPlayMode(mode, shuffle),
        ZoneAction::ClearQueue => RemoteCall::ClearQueue,
        ZoneAction::GetQueue => RemoteCall::GetQueue,
        ZoneAction::TakeSnapshot => RemoteCall::TakeSnapshot,
        ZoneAction::ApplySnapshot(snapshot) => RemoteCall::ApplySnapshot(snapshot),
    }
}

/// The remote call for `action` against the coordinator `sd`, built for
/// the application to carry out.
fn build_call(action: ZoneAction, sd: &SpeakerData) -> (call: RemoteCall)
    ensures
        call == spec_call_for(action, *sd),
{
    match action {
        ZoneAction::Exists => RemoteCall::Play,
        ZoneAction::PlayNow(media) => RemoteCall::PlayMedia(media),
        ZoneAction::QueueAsNext(media) => RemoteCall::QueueMedia {
            media,
            cached_track: cached_current_track(sd),
        },
        ZoneAction::Play => RemoteCall::Play,
        ZoneAction::Pause => RemoteCall::Pause,
        ZoneAction::PlayPause => RemoteCall::PlayPause,
        ZoneAction::NextTrack => RemoteCall::NextTrack,
        ZoneAction::PreviousTrack => RemoteCall::PreviousTrack,
        ZoneAction::SeekTime(seconds) => RemoteCall::SeekTime(seconds),
        ZoneAction::SeekTrack(number) => RemoteCall::SeekTrack(number),
        ZoneAction::SeekRelTrack(delta) => RemoteCall::SeekRelTrack {
            delta,
            cached_track: cached_current_track(sd),
        },
        ZoneAction::SetRepeat(mode) => RemoteCall::SetRepeat(mode),
        ZoneAction::SetShuffle(state) => RemoteCall::SetShuffle(state),
        ZoneAction::SetCrossfade(state) => RemoteCall::SetCrossfade(state),
        ZoneAction::SetPlayMode(mode, shuffle) => RemoteCall::SetPlayMode(mode, shuffle),
        ZoneAction::ClearQueue => RemoteCall::ClearQueue,
        ZoneAction::GetQueue => RemoteCall::GetQueue,
        ZoneAction::TakeSnapshot => RemoteCall::TakeSnapshot,
        ZoneAction::ApplySnapshot(snapshot) => RemoteCall::ApplySnapshot(snapshot),
    }
}

impl Controller {
    /// Routes a zone command: an existence check is answered straight from
    /// the registry; every other action resolves the zone's coordinator
    /// and becomes a remote call against it, or a negative reply where the
    /// zone does not resolve.  Stateless per invocation: the registry is
    /// not changed.
    pub fn handle_zone_action(&self, name: &str, action: ZoneAction) -> (plan: RoutePlan)
        ensures
            action matches ZoneAction::Exists ==> plan == RoutePlan::Reply(
                if self.reg_has_name(name@) {
                    Response::Done
                } else {
                    Response::NotOk
                },
            ),
            !(action matches ZoneAction::Exists) && !self.can_resolve(name@) ==> plan
                == RoutePlan::Reply(Response::NotOk),
            !(action matches ZoneAction::Exists) && self.can_resolve(name@) ==> exists|ci: int|
                #[trigger] self.resolves_coordinator(name@, ci) && plan == (RoutePlan::Invoke {
                    coordinator: self.reg()[ci].info,
                    call: spec_call_for(action, self.reg()[ci]),
                }),
    {
        let is_exists = match &action {
            ZoneAction::Exists => true,
            _ => false,
        };
        if is_exists {
            match self.find_index_by_name(name) {
                Some(_) => RoutePlan::Reply(Response::Done),
                None => RoutePlan::Reply(Response::NotOk),
            }
        } else {
            match self.get_coordinator_for_name(name) {
                Some(sd) => {
                    let coordinator = sd.info.duplicate();
                    let call = build_call(action, sd);
                    RoutePlan::Invoke { coordinator, call }
                },
                None => RoutePlan::Reply(Response::NotOk),
            }
        }
    }
}

/// Target track of a relative seek: the current track moved by `delta`,
/// clamped so the result is never below track number one.
pub fn seek_rel_target(cur_track: u32, delta: i32) -> (target: u32)
    ensures
        target >= 1,
        cur_track + delta < 1 ==> target == 1,
        1 <= cur_track + delta <= u32::MAX ==> target == cur_track + delta,
        cur_track + delta > u32::MAX ==> target == u32::MAX,
{
    let shifted: i64 = cur_track as i64 + delta as i64;
    if shifted < 1 {
        1
    } else if shifted > u32::MAX as i64 {
        u32::MAX
    } else {
        shifted as u32
    }
}

/// The call a play-pause toggle settles on once the playback state is
/// known: pause a playing zone, play a paused one.
pub fn play_pause_choice(is_playing: bool) -> (call: RemoteCall)
    ensures
        is_playing ==> call == RemoteCall::Pause,
        !is_playing ==> call == RemoteCall::Play,
{
    if is_playing {
        RemoteCall::Pause
    } else {
        RemoteCall::Play
    }
}

/// What the media resolver's answer means for a play or queue command: a
/// resolved resource to go on with, or a content-not-found condition — the
/// remote call is never attempted then, and the condition becomes the
/// negative reply (see [`failure_response`]).
pub fn media_resolution_step(resolved: Option<(String, String)>) -> (r: Result<
    (String, String),
    Error,
>)
    ensures
        resolved matches Some(p) ==> r == Ok::<(String, String), Error>(p),
        resolved is None ==> r == Err::<(String, String), Error>(Error::ContentNotFound),
{
    match resolved {
        Some(p) => Ok(p),
        None => Err(Error::ContentNotFound),
    }
}

/// The reply a failed zone action owes its caller: every failure, whatever
/// its kind, becomes the negative reply — never a loop-level error.
pub fn failure_response(err: Error) -> (r: Response)
    ensures
        r == Response::NotOk,
{
    let _ = err;
    Response::NotOk
}

/// The reply a remote call's outcome maps to: success becomes the
/// action-specific positive response, any failure the negative one.
pub fn response_for(outcome: CallOutcome) -> (r: Response)
    ensures
        outcome matches CallOutcome::Completed ==> r == Response::Done,
        outcome matches CallOutcome::Failed ==> r == Response::NotOk,
        outcome matches CallOutcome::GotSnapshot(s) ==> r == Response::Snapshot(s),
        outcome matches CallOutcome::GotQueue(q) ==> r == Response::Queue(q),
{
    match outcome {
        CallOutcome::Completed => Response::Done,
        CallOutcome::Failed => Response::NotOk,
        CallOutcome::GotSnapshot(s) => Response::Snapshot(s),
        CallOutcome::GotQueue(q) => Response::Queue(q),
    }
}

} // verus!
