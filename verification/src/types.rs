//! Shared types of the event dispatcher and the command router.

use vstd::prelude::*;

verus! {

use crate::snapshot::Snapshot;
use crate::speaker::SpeakerInfo;
use crate::track::Track;

/// Stable identity of a device.
pub type Uuid = String;

/// Display name of a zone.
pub type ZoneName = String;

/// A decoded topology payload: one entry per group, the coordinator's uuid
/// first, then the member descriptors.
pub type Topology = Vec<(Uuid, Vec<SpeakerInfo>)>;

/// The coordinator-to-members mapping kept by the registry: uuids only.
pub type ReducedTopology = Vec<(Uuid, Vec<Uuid>)>;

/// The latest transport status reported by a device, as a field-to-value
/// map.
pub type AVStatus = Vec<(String, String)>;

/// The remote service a subscription targets.
#[derive(Clone, Copy, Debug, PartialEq, Eq, Structural)]
pub enum ServiceKind {
    /// The zone-group-topology service: it pushes the system-wide group
    /// layout.
    ZoneGroupTopology,
    /// The audio-video-transport service of one device: it pushes playback
    /// status.
    AVTransport,
}

/// An event observed by the dispatcher.
#[derive(Clone, Debug)]
pub enum Event {
    /// A decoded topology payload arrived.
    TopologyUpdate(Topology),
    /// A device (named by the subscription's tag) reported transport
    /// status.
    TransportUpdate(Option<Uuid>, AVStatus),
    /// A subscription's listener ended or a renewal failed, for the given
    /// service, tagged with the owning device where one exists.
    SubscriptionFailure(Option<Uuid>, ServiceKind),
}

/// The reply to a routed zone command.
#[derive(Clone, Debug)]
pub enum Response {
    /// The action was carried out.
    Done,
    /// The zone was unknown, the media could not be resolved, or the remote
    /// call failed.
    NotOk,
    /// The captured playback state.
    Snapshot(Snapshot),
    /// The queue of the zone's coordinator.
    Queue(Vec<Track>),
}

} // verus!
