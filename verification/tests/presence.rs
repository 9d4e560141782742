use discord_presence_bridge::presence::startup_client;
use discord_presence_bridge::presence::startup_with_clock;
use discord_presence_bridge::ActivityTimestamps;
use discord_presence_bridge::sync::check_activity_changed;
use discord_presence_bridge::ActivityState;
use discord_presence_bridge::Client;
use discord_presence_bridge::RPCConfig;
use discord_presence_bridge::RPCPlugin;
use discord_presence_bridge::StartupError;
use discord_presence_bridge::SyncOutcome;

#[test]
fn plugin_reports_its_name() {
    let plugin = RPCPlugin {
        config: RPCConfig {
            app_id: 425_407_036_495_495_169,
            show_time: true,
        },
    };
    assert_eq!(plugin.name(), "Discord Presence");
}

#[test]
fn first_tick_syncs_the_initial_payload() {
    // A newly created state counts as changed, so the very first tick issues
    // one update call carrying the initial payload (here it fails, since the
    // client was never started); the second tick issues none.
    let mut s = ActivityState::default();
    let mut client = Client::new(425_407_036_495_495_169);
    let first = check_activity_changed(&mut s, &mut client);
    assert!(matches!(first, SyncOutcome::UpdateFailed(_)));
    let second = check_activity_changed(&mut s, &mut client);
    assert_eq!(second, SyncOutcome::NoChange);
}

#[test]
fn failed_update_is_reported_and_isolated() {
    let mut s = ActivityState::default();
    // A client that was never started refuses the update call, which stands in
    // for any transient failure of the external service.
    let mut client = Client::new(425_407_036_495_495_169);

    s.set_details(Some("Hello World".to_string()));
    let first = check_activity_changed(&mut s, &mut client);
    assert!(matches!(first, SyncOutcome::UpdateFailed(_)));

    // The failure left the payload intact and the flag clean: without a new
    // mutation the next tick calls nothing.
    assert_eq!(s.payload_ref().details.as_deref(), Some("Hello World"));
    assert!(!s.is_dirty());
    let second = check_activity_changed(&mut s, &mut client);
    assert_eq!(second, SyncOutcome::NoChange);

    // A new mutation makes the next tick call again, and fail again, without
    // the earlier failure sticking to anything.
    s.set_state(Some("still here".to_string()));
    let third = check_activity_changed(&mut s, &mut client);
    assert!(matches!(third, SyncOutcome::UpdateFailed(_)));
    assert!(!s.is_dirty());
}

#[test]
fn failed_update_report_names_the_cause() {
    let mut s = ActivityState::default();
    let mut client = Client::new(425_407_036_495_495_169);
    s.set_instance(Some(false));
    match check_activity_changed(&mut s, &mut client) {
        SyncOutcome::UpdateFailed(msg) => assert!(!msg.is_empty()),
        other => panic!("expected a failed update, got {:?}", other),
    }
}

#[test]
fn startup_without_show_time_leaves_payload_unchanged() {
    let mut s = ActivityState::default();
    let mut client = Client::new(425_407_036_495_495_169);
    let config = RPCConfig {
        app_id: 425_407_036_495_495_169,
        show_time: false,
    };
    let r = startup_client(&mut s, &mut client, &config);
    assert_eq!(r, Ok(()));
    assert_eq!(s.payload_ref().timestamps, None);
    // The initial payload is still pending: the first tick after startup
    // issues one update carrying it, seeded or not.
    assert!(s.is_dirty());
}

#[test]
fn startup_with_show_time_seeds_a_start_timestamp() {
    let mut s = ActivityState::default();
    let mut client = Client::new(425_407_036_495_495_169);
    let config = RPCConfig {
        app_id: 425_407_036_495_495_169,
        show_time: true,
    };
    let r = startup_client(&mut s, &mut client, &config);
    assert_eq!(r, Ok(()));
    let ts = s
        .payload_ref()
        .timestamps
        .expect("show_time owes a seeded timestamp");
    assert!(ts.start.is_some());
    assert_eq!(ts.end, None);
    assert!(s.is_dirty());
}

#[test]
fn startup_with_clock_seeds_exactly_the_given_time() {
    let mut s = ActivityState::default();
    let mut client = Client::new(425_407_036_495_495_169);
    let config = RPCConfig {
        app_id: 425_407_036_495_495_169,
        show_time: true,
    };
    let r = startup_with_clock(&mut s, &mut client, &config, Some(1_234_567_890));
    assert_eq!(r, Ok(()));
    assert_eq!(
        s.payload_ref().timestamps,
        Some(ActivityTimestamps {
            start: Some(1_234_567_890),
            end: None,
        })
    );
}

#[test]
fn clock_before_epoch_is_a_fatal_startup_error() {
    let mut s = ActivityState::default();
    let mut client = Client::new(425_407_036_495_495_169);
    let config = RPCConfig {
        app_id: 425_407_036_495_495_169,
        show_time: true,
    };
    let r = startup_with_clock(&mut s, &mut client, &config, None);
    assert_eq!(r, Err(StartupError::ClockBeforeEpoch));
    // The state is exactly as constructed: nothing seeded, the initial
    // payload still pending.
    assert_eq!(s.payload_ref().timestamps, None);
    assert!(s.is_dirty());
}

#[test]
fn missing_clock_is_harmless_without_show_time() {
    let mut s = ActivityState::default();
    let mut client = Client::new(425_407_036_495_495_169);
    let config = RPCConfig {
        app_id: 425_407_036_495_495_169,
        show_time: false,
    };
    let r = startup_with_clock(&mut s, &mut client, &config, None);
    assert_eq!(r, Ok(()));
    assert_eq!(s.payload_ref().timestamps, None);
}

#[test]
fn startup_error_has_a_report_text() {
    let e = StartupError::ClockBeforeEpoch;
    assert_eq!(
        e.message(),
        "time has gone backwards: system clock is before the epoch"
    );
}
