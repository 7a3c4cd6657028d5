use sonor::controller::{Controller, Effect};
use sonor::mediasource::MediaSource;
use sonor::speaker::SpeakerInfo;
use sonor::types::{Event, Response, ServiceKind};
use sonor::zoneaction::{CallOutcome, RemoteCall, RoutePlan, ZoneAction};
use sonor::Error;

fn info(name: &str, uuid: &str, location: &str) -> SpeakerInfo {
    SpeakerInfo::new(name.to_string(), uuid.to_string(), location.to_string())
}

/// One group: U1 ("Kitchen") coordinates itself and U2 ("Den").
fn kitchen_den_topology() -> Vec<(String, Vec<SpeakerInfo>)> {
    vec![(
        "U1".to_string(),
        vec![
            info("Kitchen", "U1", "http://10.0.0.1:1400/"),
            info("Den", "U2", "http://10.0.0.2:1400/"),
        ],
    )]
}

#[test]
fn test_registry_matches_latest_topology() {
    let mut c = Controller::new();
    let created = c.apply_topology(&kitchen_den_topology());
    assert_eq!(created.len(), 2);
    assert_eq!(c.speakerdata.len(), 2);
    assert!(c.get_speaker_by_uuid("U1").is_some());
    assert!(c.get_speaker_by_uuid("U2").is_some());

    // A second update no longer lists U1 but brings U3.
    let second = vec![(
        "U2".to_string(),
        vec![
            info("Den", "U2", "http://10.0.0.2:1400/"),
            info("Attic", "U3", "http://10.0.0.3:1400/"),
        ],
    )];
    let created = c.apply_topology(&second);
    assert_eq!(created.len(), 1);
    assert_eq!(created[0].uuid(), "U3");
    assert_eq!(c.speakerdata.len(), 2);
    assert!(c.get_speaker_by_uuid("U1").is_none());
    assert!(c.get_speaker_by_uuid("U2").is_some());
    assert!(c.get_speaker_by_uuid("U3").is_some());
}

#[test]
fn test_applying_same_topology_twice_keeps_records() {
    let mut c = Controller::new();
    c.apply_topology(&kitchen_den_topology());
    // Give U1 some cached status that must survive the second update.
    c.update_avtransport_data("U1", vec![("CurrentTrack".to_string(), "7".to_string())]);

    let created = c.apply_topology(&kitchen_den_topology());
    assert!(created.is_empty());
    assert_eq!(c.speakerdata.len(), 2);
    let u1 = c.get_speaker_by_uuid("U1").unwrap();
    assert_eq!(u1.transport_data.len(), 1);
    assert_eq!(u1.transport_data[0].0, "CurrentTrack");
    assert_eq!(u1.transport_data[0].1, "7");
}

#[test]
fn test_resolve_coordinator_for_either_member() {
    let mut c = Controller::new();
    c.apply_topology(&kitchen_den_topology());
    assert_eq!(c.get_coordinator_for_name("Kitchen").unwrap().info.uuid(), "U1");
    assert_eq!(c.get_coordinator_for_name("Den").unwrap().info.uuid(), "U1");
    // Zone names match without regard to ASCII case.
    assert_eq!(c.get_coordinator_for_name("dEN").unwrap().info.uuid(), "U1");
    assert!(c.get_coordinator_for_name("Cellar").is_none());
}

#[test]
fn test_resolve_coordinator_by_uuid() {
    let mut c = Controller::new();
    c.apply_topology(&kitchen_den_topology());
    assert_eq!(c.get_coordinator_for_uuid("U2").unwrap().info.uuid(), "U1");
    assert!(c.get_coordinator_for_uuid("U9").is_none());
}

#[test]
fn test_play_now_routes_to_coordinator() {
    let mut c = Controller::new();
    c.apply_topology(&kitchen_den_topology());
    let plan = c.handle_zone_action("Den", ZoneAction::PlayNow(MediaSource::Spotify(
        "track:4uLU6hMCjMI75M1A2tKUQC".to_string(),
    )));
    match plan {
        RoutePlan::Invoke { coordinator, call } => {
            // The call goes to A (the coordinator U1), not to B.
            assert_eq!(coordinator.uuid(), "U1");
            assert!(matches!(call, RemoteCall::PlayMedia(MediaSource::Spotify(_))));
        }
        other => panic!("expected an invocation, got {:?}", other),
    }
    // A successful remote call maps to the positive reply.
    let reply = sonor::zoneaction::response_for(CallOutcome::Completed);
    assert!(matches!(reply, Response::Done));
}

#[test]
fn test_exists_is_a_name_check_only() {
    let mut c = Controller::new();
    c.apply_topology(&kitchen_den_topology());
    assert!(matches!(
        c.handle_zone_action("kitchen", ZoneAction::Exists),
        RoutePlan::Reply(Response::Done)
    ));
    assert!(matches!(
        c.handle_zone_action("Cellar", ZoneAction::Exists),
        RoutePlan::Reply(Response::NotOk)
    ));
}

#[test]
fn test_unresolved_zone_replies_not_ok() {
    let mut c = Controller::new();
    c.apply_topology(&kitchen_den_topology());
    assert!(matches!(
        c.handle_zone_action("Cellar", ZoneAction::Pause),
        RoutePlan::Reply(Response::NotOk)
    ));
}

#[test]
fn test_seek_relative_uses_cached_track() {
    let mut c = Controller::new();
    c.apply_topology(&kitchen_den_topology());
    c.update_avtransport_data("U1", vec![("CurrentTrack".to_string(), "7".to_string())]);
    let plan = c.handle_zone_action("Kitchen", ZoneAction::SeekRelTrack(-2));
    match plan {
        RoutePlan::Invoke { call, .. } => {
            assert!(matches!(
                call,
                RemoteCall::SeekRelTrack { delta: -2, cached_track: Some(7) }
            ));
        }
        other => panic!("expected an invocation, got {:?}", other),
    }
}

#[test]
fn test_transport_failure_rebuilds_resolvable_record() {
    let mut c = Controller::new();
    c.apply_topology(&kitchen_den_topology());
    c.update_avtransport_data("U2", vec![("CurrentTrack".to_string(), "3".to_string())]);

    let effects = c
        .handle_event(
            Event::SubscriptionFailure(Some("U2".to_string()), ServiceKind::AVTransport),
            0,
        )
        .unwrap();
    assert_eq!(effects.len(), 1);
    // The record is dropped while the device is re-resolved.
    assert!(c.get_speaker_by_uuid("U2").is_none());
    let record = match effects.into_iter().next().unwrap() {
        Effect::ResolveSpeaker(record) => record,
        other => panic!("expected a resolution request, got {:?}", other),
    };
    assert_eq!(record.info.uuid(), "U2");

    // The device answered under a fresh address: the record is rebuilt.
    let fresh = info("Den", "U2", "http://10.0.0.9:1400/");
    c.reinstate_record(record, Some(fresh), None);
    let u2 = c.get_speaker_by_uuid("U2").expect("U2 is registered again");
    assert_eq!(u2.info.location(), "http://10.0.0.9:1400/");
    assert_eq!(u2.transport_data[0].1, "3");
}

#[test]
fn test_transport_failure_for_unresolvable_record_drops_it() {
    let mut c = Controller::new();
    c.apply_topology(&kitchen_den_topology());
    let effects = c
        .handle_event(
            Event::SubscriptionFailure(Some("U2".to_string()), ServiceKind::AVTransport),
            0,
        )
        .unwrap();
    let record = match effects.into_iter().next().unwrap() {
        Effect::ResolveSpeaker(record) => record,
        other => panic!("expected a resolution request, got {:?}", other),
    };
    c.reinstate_record(record, None, None);
    assert!(c.get_speaker_by_uuid("U2").is_none());
}

#[test]
fn test_topology_failure_with_empty_registry_rediscovers() {
    let mut c = Controller::new();
    let effects = c
        .handle_event(Event::SubscriptionFailure(None, ServiceKind::ZoneGroupTopology), 5)
        .unwrap();
    assert_eq!(effects.len(), 1);
    assert!(matches!(effects[0], Effect::Rediscover));
}

#[test]
fn test_topology_failure_resubscribes_to_picked_device() {
    let mut c = Controller::new();
    c.apply_topology(&kitchen_den_topology());
    let effects = c
        .handle_event(Event::SubscriptionFailure(None, ServiceKind::ZoneGroupTopology), 1)
        .unwrap();
    assert_eq!(effects.len(), 1);
    match &effects[0] {
        Effect::ResubscribeTopology(target) => {
            assert_eq!(target.uuid(), c.speakerdata[1].info.uuid());
        }
        other => panic!("expected a resubscription request, got {:?}", other),
    }
}

#[test]
fn test_topology_update_requests_new_subscriptions() {
    let mut c = Controller::new();
    let effects = c.handle_event(Event::TopologyUpdate(kitchen_den_topology()), 0).unwrap();
    assert_eq!(effects.len(), 2);
    let mut uuids: Vec<String> = effects
        .iter()
        .map(|e| match e {
            Effect::SubscribeTransport(info) => info.uuid().to_string(),
            other => panic!("expected a subscription request, got {:?}", other),
        })
        .collect();
    uuids.sort();
    assert_eq!(uuids, vec!["U1".to_string(), "U2".to_string()]);
}

#[test]
fn test_malformed_topology_is_skipped() {
    let mut c = Controller::new();
    c.apply_topology(&kitchen_den_topology());
    // A group whose coordinator is not among its own members is malformed.
    let malformed = vec![("U9".to_string(), vec![info("Attic", "U3", "http://10.0.0.3:1400/")])];
    let r = c.handle_event(Event::TopologyUpdate(malformed), 0);
    assert_eq!(r.unwrap_err(), Error::ProtocolError);
    // The registry is untouched.
    assert!(c.get_speaker_by_uuid("U1").is_some());
    assert!(c.get_speaker_by_uuid("U3").is_none());
}

#[test]
fn test_transport_update_for_unknown_uuid_is_discarded() {
    let mut c = Controller::new();
    c.apply_topology(&kitchen_den_topology());
    let effects = c
        .handle_event(
            Event::TransportUpdate(
                Some("UX".to_string()),
                vec![("CurrentTrack".to_string(), "1".to_string())],
            ),
            0,
        )
        .unwrap();
    assert!(effects.is_empty());
    assert!(c.get_speaker_by_uuid("U1").unwrap().transport_data.is_empty());
}

#[test]
fn test_transport_update_without_uuid_is_protocol_error() {
    let mut c = Controller::new();
    c.apply_topology(&kitchen_den_topology());
    let r = c.handle_event(Event::TransportUpdate(None, Vec::new()), 0);
    assert_eq!(r.unwrap_err(), Error::ProtocolError);
}

#[test]
fn test_transport_update_caches_status() {
    let mut c = Controller::new();
    c.apply_topology(&kitchen_den_topology());
    let effects = c
        .handle_event(
            Event::TransportUpdate(
                Some("U2".to_string()),
                vec![("CurrentTransportState".to_string(), "PLAYING".to_string())],
            ),
            0,
        )
        .unwrap();
    assert!(effects.is_empty());
    let u2 = c.get_speaker_by_uuid("U2").unwrap();
    assert_eq!(u2.transport_data[0].1, "PLAYING");
}

#[test]
fn test_empty_topology_clears_registry() {
    let mut c = Controller::new();
    c.apply_topology(&kitchen_den_topology());
    let created = c.apply_topology(&Vec::new());
    assert!(created.is_empty());
    assert!(c.speakers().is_empty());
    assert!(c.topology().is_empty());
}

#[test]
fn test_uuid_matching_ignores_ascii_case() {
    let mut c = Controller::new();
    c.apply_topology(&kitchen_den_topology());
    c.update_avtransport_data("U1", vec![("CurrentTrack".to_string(), "4".to_string())]);
    // The same devices, their uuids written in lower case: the records
    // survive, no new ones appear.
    let lowered = vec![(
        "u1".to_string(),
        vec![
            info("Kitchen", "u1", "http://10.0.0.1:1400/"),
            info("Den", "u2", "http://10.0.0.2:1400/"),
        ],
    )];
    let created = c.apply_topology(&lowered);
    assert!(created.is_empty());
    assert_eq!(c.speakers().len(), 2);
    let u1 = c.get_speaker_by_uuid("U1").unwrap();
    assert_eq!(u1.transport_data[0].1, "4");
}

#[test]
fn test_descriptor_updates_in_place_on_rename() {
    let mut c = Controller::new();
    c.apply_topology(&kitchen_den_topology());
    let renamed = vec![(
        "U1".to_string(),
        vec![
            info("Pantry", "U1", "http://10.0.0.1:1400/"),
            info("Den", "U2", "http://10.0.0.2:1400/"),
        ],
    )];
    let created = c.apply_topology(&renamed);
    assert!(created.is_empty());
    assert_eq!(c.get_speaker_by_uuid("U1").unwrap().info.name(), "Pantry");
    assert!(c.get_speaker_with_name("Kitchen").is_none());
}
