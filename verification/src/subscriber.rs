//! Lifecycle of one push-notification subscription.
//!
//! A subscription is a bounded-duration grant from a remote service.  Its
//! owner runs two tasks: a listener that turns inbound notifications into
//! events, and a renewal timer that refreshes the grant before it lapses.
//! This module is the decision core of that lifecycle; the embedding
//! application performs the network calls and task spawning and reports
//! their outcomes back.

use vstd::prelude::*;

verus! {

use crate::Error;
use crate::types::{AVStatus, Event, ServiceKind, Topology, Uuid};

/// Requested lifetime of a subscription grant, in seconds.
pub const TIMEOUT_SEC: u32 = 300;

/// Pause between renewal attempts, in seconds.
pub const RENEW_SEC: u32 = 60;

/// The renewal pause is strictly shorter than the granted lifetime, so a
/// renewal lands before the grant lapses.
pub proof fn lemma_renewal_beats_timeout()
    ensures
        RENEW_SEC < TIMEOUT_SEC,
{
}

/// Where a subscription stands in its life.
#[derive(Clone, Copy, Debug, PartialEq, Eq, Structural)]
pub enum SubscriptionState {
    /// No grant is held.
    Unsubscribed,
    /// The subscribe call is in flight.
    Subscribing,
    /// A grant is held and both tasks run.
    Active,
    /// The subscribe call failed.
    Failed,
}

/// What the remote service answered to an unsubscribe call.
#[derive(Clone, Copy, Debug, PartialEq, Eq, Structural)]
pub enum UnsubscribeOutcome {
    /// The grant was released.
    Completed,
    /// The grant had already lapsed on its own; there was nothing left to
    /// release.
    AlreadyExpired,
    /// The call failed for any other reason.
    Failed,
}

/// The bookkeeping of one subscription: its target service, the owning
/// device's uuid for transport subscriptions, the granted subscription id,
/// and which of the two tasks run.
#[derive(Clone, Debug)]
pub struct Subscriber {
    /// Where the subscription stands.
    pub state: SubscriptionState,
    /// The service subscribed to, once known.
    pub service: Option<ServiceKind>,
    /// Uuid of the owning device, for transport subscriptions.
    pub tag: Option<Uuid>,
    /// The subscription id the service granted.
    pub sid: Option<String>,
    /// Whether the listener task runs.
    pub listener_running: bool,
    /// Whether the renewal-timer task runs.
    pub timer_running: bool,
}

impl Subscriber {
    /// Well-formedness: tasks only run while the subscription is active,
    /// and an active subscription knows its service and grant.
    pub open spec fn wf(self) -> bool {
        &&& (self.state == SubscriptionState::Active ==> self.service is Some && self.sid is Some)
        &&& (self.state == SubscriptionState::Subscribing ==> self.service is Some)
        &&& (self.listener_running || self.timer_running ==> self.state
            == SubscriptionState::Active)
    }

    /// A fresh subscriber: unsubscribed, nothing running.
    pub fn new() -> (r: Subscriber)
        ensures
            r.wf(),
            r.state == SubscriptionState::Unsubscribed,
            r.service is None,
            r.tag is None,
            r.sid is None,
            !r.listener_running,
            !r.timer_running,
    {
        Subscriber {
            state: SubscriptionState::Unsubscribed,
            service: None,
            tag: None,
            sid: None,
            listener_running: false,
            timer_running: false,
        }
    }

    /// Records that the subscribe call for `service` went out, tagged with
    /// the owning device for transport subscriptions.
    pub fn begin_subscribe(&mut self, service: ServiceKind, tag: Option<Uuid>)
        requires
            old(self).wf(),
            old(self).state != SubscriptionState::Active,
        ensures
            final(self).wf(),
            final(self).state == SubscriptionState::Subscribing,
            final(self).service == Some(service),
            final(self).tag == tag,
            final(self).sid is None,
            !final(self).listener_running,
            !final(self).timer_running,
    {
        self.state = SubscriptionState::Subscribing;
        self.service = Some(service);
        self.tag = tag;
        self.sid = None;
        self.listener_running = false;
        self.timer_running = false;
    }

    /// Records the granted subscription id and the start of both tasks.
    pub fn complete_subscribe(&mut self, sid: String)
        requires
            old(self).wf(),
            old(self).state == SubscriptionState::Subscribing,
        ensures
            final(self).wf(),
            final(self).state == SubscriptionState::Active,
            final(self).sid == Some(sid),
            final(self).service == old(self).service,
            final(self).tag == old(self).tag,
            final(self).listener_running,
            final(self).timer_running,
    {
        self.state = SubscriptionState::Active;
        self.sid = Some(sid);
        self.listener_running = true;
        self.timer_running = true;
    }

    /// Records that the subscribe call failed; no tasks were started.
    pub fn fail_subscribe(&mut self)
        requires
            old(self).wf(),
            old(self).state == SubscriptionState::Subscribing,
        ensures
            final(self).wf(),
            final(self).state == SubscriptionState::Failed,
            final(self).service == old(self).service,
            final(self).tag == old(self).tag,
            final(self).sid is None,
            !final(self).listener_running,
            !final(self).timer_running,
    {
        self.state = SubscriptionState::Failed;
        self.sid = None;
    }

    /// The event the listener emits for a notification it decoded, by the
    /// subscription's service kind: a topology payload for the topology
    /// service, transport status (tagged with the owning device) for the
    /// transport service.
    pub fn topology_event(&self, topology: Topology) -> (e: Event)
        requires
            self.service == Some(ServiceKind::ZoneGroupTopology),
        ensures
            e == Event::TopologyUpdate(topology),
    {
        Event::TopologyUpdate(topology)
    }

    /// The event the listener emits for decoded transport status: it is
    /// tagged with this subscription's owning device.
    pub fn transport_event(&self, fields: AVStatus) -> (e: Event)
        requires
            self.service == Some(ServiceKind::AVTransport),
        ensures
            e matches Event::TransportUpdate(tag, f) && f == fields && (tag is Some <==> self.tag
                is Some) && (tag matches Some(u) ==> u@ == self.tag->Some_0@),
    {
        Event::TransportUpdate(self.tag.clone(), fields)
    }

    /// The failure event this subscription emits when its listener's stream
    /// ends or a renewal attempt fails: a subscription failure for its
    /// service, tagged with its owning device.  After a renewal failure the
    /// timer keeps its periodic loop unchanged.
    pub fn failure_event(&self) -> (e: Event)
        requires
            self.service is Some,
        ensures
            e matches Event::SubscriptionFailure(tag, svc) && svc == self.service->Some_0 && (tag
                is Some <==> self.tag is Some) && (tag matches Some(u) ==> u@ == self.tag->Some_0@),
    {
        let svc = match &self.service {
            Some(s) => *s,
            None => ServiceKind::ZoneGroupTopology,
        };
        Event::SubscriptionFailure(self.tag.clone(), svc)
    }

    /// Cancels both tasks.  Cancelling an already-finished task is a no-op;
    /// a missing task handle is reported, but both handles are released
    /// either way.
    pub fn terminate_tasks(&mut self) -> (r: Result<(), Error>)
        ensures
            old(self).wf() ==> final(self).wf(),
            !final(self).listener_running,
            !final(self).timer_running,
            final(self).state == old(self).state,
            final(self).service == old(self).service,
            final(self).tag == old(self).tag,
            final(self).sid == old(self).sid,
            r is Ok <==> old(self).listener_running && old(self).timer_running,
            r is Err ==> r == Err::<(), Error>(Error::SubscriptionError),
    {
        let had_listener = self.listener_running;
        let had_timer = self.timer_running;
        self.listener_running = false;
        self.timer_running = false;
        if had_listener && had_timer {
            Ok(())
        } else {
            Err(Error::SubscriptionError)
        }
    }

    /// Records that the grant is gone, after an unsubscribe call.
    pub fn record_unsubscribed(&mut self)
        requires
            old(self).wf(),
            !old(self).listener_running,
            !old(self).timer_running,
        ensures
            final(self).wf(),
            final(self).state == SubscriptionState::Unsubscribed,
            final(self).sid is None,
            final(self).service is None,
            final(self).tag == old(self).tag,
            !final(self).listener_running,
            !final(self).timer_running,
    {
        self.state = SubscriptionState::Unsubscribed;
        self.sid = None;
        self.service = None;
    }
}

/// Reads the answer to an unsubscribe call.  A grant that had already
/// expired counts as released: only a genuine failure is surfaced, as a
/// subscription error.
pub fn classify_unsubscribe(outcome: UnsubscribeOutcome) -> (r: Result<(), Error>)
    ensures
        outcome == UnsubscribeOutcome::Completed ==> r is Ok,
        outcome == UnsubscribeOutcome::AlreadyExpired ==> r is Ok,
        outcome == UnsubscribeOutcome::Failed ==> r == Err::<(), Error>(Error::SubscriptionError),
{
    match outcome {
        UnsubscribeOutcome::Completed => Ok(()),
        UnsubscribeOutcome::AlreadyExpired => Ok(()),
        UnsubscribeOutcome::Failed => Err(Error::SubscriptionError),
    }
}

/// Combines a shutdown's two halves: task cancellation and the unsubscribe
/// answer.  An unsubscribe failure is surfaced but does not undo the
/// cancellation; an already-expired grant is success.
pub fn shutdown_result(tasks: Result<(), Error>, outcome: UnsubscribeOutcome) -> (r: Result<
    (),
    Error,
>)
    ensures
        r is Ok <==> tasks is Ok && outcome != UnsubscribeOutcome::Failed,
        r is Err ==> (r == tasks || r == Err::<(), Error>(Error::SubscriptionError)),
{
    match classify_unsubscribe(outcome) {
        Ok(_) => tasks,
        Err(e) => {
            match tasks {
                Ok(_) => Err(e),
                Err(first) => Err(first),
            }
        },
    }
}

} // verus!
