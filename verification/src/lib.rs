//! Client-side coordinator for a networked multi-speaker audio system.
//!
//! The library tracks which devices exist, how they are grouped, and which
//! device in each group is the command target (the coordinator).  It keeps
//! that view fresh through event subscriptions and routes playback commands
//! to the right coordinator.  All decision logic lives here, over plain
//! values; network transport, discovery and XML decoding are external
//! collaborators driven by the embedding application.

use vstd::prelude::*;

pub mod controller;
pub mod datatypes;
pub mod mediasource;
pub mod snapshot;
pub mod speaker;
pub mod subscriber;
pub mod track;
pub mod types;
pub mod utils;
pub mod zoneaction;

pub use datatypes::ParseRepeatModeError;
pub use datatypes::RepeatMode;
pub use mediasource::MediaSource;
pub use snapshot::Snapshot;
pub use speaker::SpeakerInfo;
pub use track::Track;
pub use track::TrackInfo;

verus! {

/// Failure taxonomy of the library.
#[derive(Clone, Copy, Debug, PartialEq, Eq, Structural)]
pub enum Error {
    /// The remote device was unreachable or answered with a malformed
    /// response.
    TransportError,
    /// A topology or event payload could not be understood.
    ProtocolError,
    /// A zone name or device uuid is not known to the registry.
    ResolutionError,
    /// A subscribe, renew or unsubscribe call failed.  An "already expired"
    /// answer to an unsubscribe is not a failure.
    SubscriptionError,
    /// A media reference could not be resolved to a playable URI.
    ContentNotFound,
    /// The command queue or a reply channel was closed by its peer.
    QueueClosed,
}

} // verus!
