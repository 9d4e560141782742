use discord_presence_bridge::events::all_event_kinds;
use discord_presence_bridge::presence::seed_timestamps;
use discord_presence_bridge::sync::pending_update;
use discord_presence_bridge::ActivityState;
use discord_presence_bridge::ActivityTimestamps;
use discord_presence_bridge::EventKind;

#[test]
fn mutations_mark_dirty_and_coalesce_into_one_update() {
    let mut s = ActivityState::default();
    let _initial = pending_update(&mut s).expect("a fresh state has its initial payload pending");
    assert!(!s.is_dirty());
    s.set_instance(Some(true));
    s.set_details(Some("Hello World".to_string()));
    s.set_details(Some("Hello Again".to_string()));
    s.set_state(Some("This is state".to_string()));
    assert!(s.is_dirty());

    let update = pending_update(&mut s).expect("a mutated payload owes one update");
    assert_eq!(update.details.as_deref(), Some("Hello Again"));
    assert_eq!(update.state.as_deref(), Some("This is state"));
    assert_eq!(update.instance, Some(true));
    assert_eq!(update.timestamps, None);
    assert!(!s.is_dirty());
}

#[test]
fn no_mutation_between_ticks_means_no_update() {
    let mut s = ActivityState::default();
    s.set_state(Some("playing".to_string()));
    assert!(pending_update(&mut s).is_some());
    assert_eq!(pending_update(&mut s), None);
    assert_eq!(pending_update(&mut s), None);
}

#[test]
fn fresh_state_has_its_initial_payload_pending() {
    // A newly created state counts as changed, so the first tick syncs the
    // initial (empty) payload; after that nothing is pending.
    let mut s = ActivityState::default();
    let initial = pending_update(&mut s).expect("a fresh state has its initial payload pending");
    assert_eq!(initial.details, None);
    assert_eq!(initial.state, None);
    assert_eq!(initial.instance, None);
    assert_eq!(initial.timestamps, None);
    assert_eq!(pending_update(&mut s), None);
}

#[test]
fn timestamp_seeding_uses_startup_time_in_whole_seconds() {
    let mut s = ActivityState::default();
    seed_timestamps(&mut s, true, 1_234_567_890);
    let p = s.payload_ref();
    assert_eq!(
        p.timestamps,
        Some(ActivityTimestamps {
            start: Some(1_234_567_890),
            end: None,
        })
    );
    assert!(s.is_dirty());
}

#[test]
fn timestamp_seeding_disabled_leaves_timestamps_unset() {
    let mut s = ActivityState::default();
    let _initial = pending_update(&mut s);
    seed_timestamps(&mut s, false, 1_234_567_890);
    assert_eq!(s.payload_ref().timestamps, None);
    assert!(!s.is_dirty());
}

#[test]
fn update_with_only_details_leaves_other_fields_unset() {
    let mut s = ActivityState::default();
    s.set_details(Some("solo field".to_string()));
    let update = pending_update(&mut s).expect("a mutated payload owes one update");
    assert_eq!(update.details.as_deref(), Some("solo field"));
    assert_eq!(update.state, None);
    assert_eq!(update.instance, None);
    assert_eq!(update.timestamps, None);
}

#[test]
fn overwriting_never_unsets_other_fields() {
    let mut s = ActivityState::default();
    s.set_details(Some("first".to_string()));
    let _ = pending_update(&mut s);
    s.set_state(Some("later".to_string()));
    let update = pending_update(&mut s).expect("a mutated payload owes one update");
    assert_eq!(update.details.as_deref(), Some("first"));
    assert_eq!(update.state.as_deref(), Some("later"));
}

#[test]
fn state_forwards_events_to_its_shared_queue() {
    let s = ActivityState::default();
    s.push_event(EventKind::Ready);
    s.push_event(EventKind::Disconnected);
    let drained = s.drain_events();
    assert_eq!(drained, vec![EventKind::Ready, EventKind::Disconnected]);
    assert!(s.drain_events().is_empty());
}

#[test]
fn events_handle_reaches_the_same_queue() {
    let s = ActivityState::default();
    let handle = s.events_handle();
    handle.push(EventKind::Connected);
    assert_eq!(s.drain_events(), vec![EventKind::Connected]);
}

#[test]
fn all_event_kinds_lists_each_kind_once() {
    let kinds = all_event_kinds();
    assert_eq!(
        kinds,
        vec![
            EventKind::Ready,
            EventKind::Connected,
            EventKind::Disconnected,
            EventKind::Error,
            EventKind::ActivityJoin,
            EventKind::ActivitySpectate,
            EventKind::ActivityJoinRequest,
        ]
    );
}
