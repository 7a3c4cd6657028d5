use sonor::mediasource::{play_now_steps, queue_insert_position, queue_next_step, queue_uri, MediaStep};
use sonor::snapshot::Snapshot;
use sonor::track::Track;
use sonor::types::Response;
use sonor::zoneaction::{
    failure_response, media_resolution_step, play_pause_choice, response_for, seek_rel_target,
    CallOutcome, RemoteCall,
};
use sonor::Error;

#[test]
fn test_seek_relative_clamps_to_first_track() {
    // Going five tracks back from track one stays on track one.
    assert_eq!(seek_rel_target(1, -5), 1);
    assert_eq!(seek_rel_target(3, -2), 1);
    assert_eq!(seek_rel_target(2, -2), 1);
}

#[test]
fn test_seek_relative_moves_by_delta() {
    assert_eq!(seek_rel_target(5, 5), 10);
    assert_eq!(seek_rel_target(7, -2), 5);
    assert_eq!(seek_rel_target(1, 0), 1);
}

#[test]
fn test_play_pause_choice() {
    assert!(matches!(play_pause_choice(true), RemoteCall::Pause));
    assert!(matches!(play_pause_choice(false), RemoteCall::Play));
}

#[test]
fn test_media_resolution_miss_is_content_not_found() {
    assert!(matches!(media_resolution_step(None), Err(Error::ContentNotFound)));
    let hit = media_resolution_step(Some(("uri".to_string(), "meta".to_string())));
    assert_eq!(hit.unwrap().0, "uri");
}

#[test]
fn test_any_failure_replies_not_ok() {
    assert!(matches!(failure_response(Error::ContentNotFound), Response::NotOk));
    assert!(matches!(failure_response(Error::TransportError), Response::NotOk));
    assert!(matches!(failure_response(Error::ResolutionError), Response::NotOk));
}

#[test]
fn test_response_for_outcomes() {
    assert!(matches!(response_for(CallOutcome::Completed), Response::Done));
    assert!(matches!(response_for(CallOutcome::Failed), Response::NotOk));
    let snap = Snapshot::new();
    assert!(matches!(response_for(CallOutcome::GotSnapshot(snap)), Response::Snapshot(_)));
    let queue = vec![Track { title: "t".to_string(), uri: "u".to_string() }];
    match response_for(CallOutcome::GotQueue(queue)) {
        Response::Queue(q) => assert_eq!(q.len(), 1),
        other => panic!("expected a queue reply, got {:?}", other),
    }
}

#[test]
fn test_queue_uri_names_coordinator() {
    assert_eq!(queue_uri("RINCON_X"), "x-rincon-queue:RINCON_X#0");
}

#[test]
fn test_play_now_steps_in_order() {
    let steps = play_now_steps("u".to_string(), "m".to_string(), "U1");
    assert_eq!(steps.len(), 4);
    assert!(matches!(steps[0], MediaStep::ClearQueue));
    match &steps[1] {
        MediaStep::QueueNext { uri, metadata, position } => {
            assert_eq!(uri, "u");
            assert_eq!(metadata, "m");
            assert_eq!(*position, 0);
        }
        other => panic!("expected an enqueue step, got {:?}", other),
    }
    match &steps[2] {
        MediaStep::SetTransportUri(q) => assert_eq!(q, "x-rincon-queue:U1#0"),
        other => panic!("expected a transport step, got {:?}", other),
    }
    assert!(matches!(steps[3], MediaStep::Play));
}

#[test]
fn test_queue_next_step_inserts_after_current() {
    assert_eq!(queue_insert_position(7), 8);
    match queue_next_step("u".to_string(), "m".to_string(), 7) {
        MediaStep::QueueNext { position, .. } => assert_eq!(position, 8),
        other => panic!("expected an enqueue step, got {:?}", other),
    }
}
