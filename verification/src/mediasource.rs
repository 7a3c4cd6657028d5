//! Definitions for media that can be played and queued, and the remote
//! step sequences that play it.

use vstd::prelude::*;

verus! {

use vstd::string::StringExecFns;

/// A provider-scoped reference to playable content.  The media resolver (an
/// external collaborator) turns it into a playable resource and its
/// descriptive metadata.
#[derive(Clone, Debug)]
pub enum MediaSource {
    /// A reference into the Apple catalogue, as `kind:identifier`.
    Apple(String),
    /// A reference into the Spotify catalogue, as `kind:identifier`.
    Spotify(String),
    /// A saved queue, by its title.
    SonosPlaylist(String),
    /// A saved favorite, by its title.
    SonosFavorite(String),
}

/// One remote step of starting or queueing resolved media on a
/// coordinator.
#[derive(Clone, Debug)]
pub enum MediaStep {
    /// Empty the coordinator's queue.
    ClearQueue,
    /// Enqueue the resource at the given queue position (zero asks the
    /// device to append).
    QueueNext {
        /// The resolved playable resource.
        uri: String,
        /// Its descriptive metadata.
        metadata: String,
        /// The queue position to enqueue at.
        position: u32,
    },
    /// Point the coordinator's transport at a resource.
    SetTransportUri(String),
    /// Start playback.
    Play,
}

/// The transport resource that plays a coordinator's own queue.
pub fn queue_uri(coordinator_uuid: &str) -> (r: String)
    ensures
        r@ == "x-rincon-queue:"@ + coordinator_uuid@ + "#0"@,
{
    let mut s = String::new();
    s.append("x-rincon-queue:");
    s.append(coordinator_uuid);
    s.append("#0");
    s
}

/// The ordered remote steps that replace what a coordinator is playing
/// with resolved media: clear the queue, enqueue the resource, switch the
/// transport to the coordinator's own queue, and play.
pub fn play_now_steps(uri: String, metadata: String, coordinator_uuid: &str) -> (steps: Vec<
    MediaStep,
>)
    ensures
        steps@.len() == 4,
        steps@[0] == MediaStep::ClearQueue,
        steps@[1] == (MediaStep::QueueNext { uri: uri, metadata: metadata, position: 0 }),
        steps@[2] matches MediaStep::SetTransportUri(q) && q@ == "x-rincon-queue:"@
            + coordinator_uuid@ + "#0"@,
        steps@[3] == MediaStep::Play,
{
    let mut steps: Vec<MediaStep> = Vec::new();
    steps.push(MediaStep::ClearQueue);
    steps.push(MediaStep::QueueNext { uri, metadata, position: 0 });
    steps.push(MediaStep::SetTransportUri(queue_uri(coordinator_uuid)));
    steps.push(MediaStep::Play);
    steps
}

/// The queue position right after the current track, where resolved media
/// is enqueued to play next; saturates at the largest position.
pub fn queue_insert_position(cur_track: u32) -> (r: u32)
    ensures
        cur_track < u32::MAX ==> r == cur_track + 1,
        cur_track == u32::MAX ==> r == u32::MAX,
{
    if cur_track == u32::MAX {
        u32::MAX
    } else {
        cur_track + 1
    }
}

/// The single remote step that enqueues resolved media right after the
/// current track.
pub fn queue_next_step(uri: String, metadata: String, cur_track: u32) -> (step: MediaStep)
    ensures
        cur_track < u32::MAX ==> step == (MediaStep::QueueNext {
            uri: uri,
            metadata: metadata,
            position: (cur_track + 1) as u32,
        }),
        cur_track == u32::MAX ==> step == (MediaStep::QueueNext {
            uri: uri,
            metadata: metadata,
            position: u32::MAX,
        }),
{
    let position = queue_insert_position(cur_track);
    MediaStep::QueueNext { uri, metadata, position }
}

} // verus!
