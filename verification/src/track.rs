//! Track data.

use vstd::prelude::*;

verus! {

/// One entry of a play queue.
#[derive(Clone, Debug)]
pub struct Track {
    /// Title of the track.
    pub title: String,
    /// Resource the track plays from.
    pub uri: String,
}

/// Position information about the track a device is playing.
#[derive(Clone, Copy, Debug, PartialEq, Eq, Structural)]
pub struct TrackInfo {
    /// Number of the track in the queue; the first track is number one.
    pub track_no: u32,
    /// Length of the track in seconds.
    pub duration: u32,
    /// Seconds of the track already played.
    pub elapsed: u32,
}

impl TrackInfo {
    /// Builds position information from its parts.
    pub fn new(track_no: u32, duration: u32, elapsed: u32) -> (r: TrackInfo)
        ensures
            r.track_no == track_no,
            r.duration == duration,
            r.elapsed == elapsed,
    {
        TrackInfo { track_no, duration, elapsed }
    }

    /// Number of the track in the queue.
    pub fn track_no(&self) -> (r: u32)
        ensures
            r == self.track_no,
    {
        self.track_no
    }

    /// Length of the track in seconds.
    pub fn duration(&self) -> (r: u32)
        ensures
            r == self.duration,
    {
        self.duration
    }

    /// Seconds of the track already played.
    pub fn elapsed(&self) -> (r: u32)
        ensures
            r == self.elapsed,
    {
        self.elapsed
    }
}

} // verus!
