use persistent_mongo::connection::ConnectOutcome;
use persistent_mongo::connection::ConnectionState;
use persistent_mongo::connection::MonitorDirective;
use persistent_mongo::connection::MonitorEvent;
use persistent_mongo::connection::MonitorWaitOutcome;
use persistent_mongo::connection::SetAddressPlan;
use persistent_mongo::connection::CLIENT_POLL_INTERVAL_MS;
use persistent_mongo::connection::MONITOR_TICK_INTERVAL_MS;
use persistent_mongo::connection::SHUTDOWN_GRACE_MS;

fn connected(address: &str, id: u64) -> ConnectionState {
    let mut state = ConnectionState::new();
    state.apply_connect(address.to_string(), ConnectOutcome::Connected(id));
    state
}

#[test]
fn set_address_second_call_is_skipped() {
    let mut state = ConnectionState::new();
    let address = "mongodb://localhost:27017".to_string();
    let mut connects: u32 = 0;

    // First call: nothing stored yet, so a connect is planned and succeeds.
    assert_eq!(state.set_address_plan(&address), SetAddressPlan::EstablishClient);
    connects += 1;
    state.apply_connect(address.clone(), ConnectOutcome::Connected(1));

    // Second call with the same address: skipped, no second connect.
    assert_eq!(state.set_address_plan(&address), SetAddressPlan::SkipUnchanged);
    assert_eq!(connects, 1);
    assert_eq!(state.current_client(), Some(1));
}

#[test]
fn set_address_different_address_reconnects() {
    let state = connected("mongodb://a", 1);
    assert_eq!(
        state.set_address_plan(&"mongodb://b".to_string()),
        SetAddressPlan::EstablishClient
    );
}

#[test]
fn set_address_without_client_reconnects() {
    // An address alone, with no live client, does not allow skipping.
    let mut state = connected("mongodb://a", 1);
    state.monitor_step(MonitorEvent::Tick { probe_ok: false });
    assert_eq!(state.current_client(), None);
    assert_eq!(
        state.set_address_plan(&"mongodb://a".to_string()),
        SetAddressPlan::EstablishClient
    );
}

#[test]
fn failed_connect_leaves_state_unchanged() {
    let mut state = ConnectionState::new();
    state.apply_connect("mongodb://a".to_string(), ConnectOutcome::ConnectFailed);
    assert_eq!(state.current_client(), None);
    assert!(state.address.is_none());
}

#[test]
fn monitor_repairs_lost_client_within_two_ticks() {
    let mut state = connected("mongodb://a", 1);

    // The client dies externally; the next tick observes the failed probe.
    let directive = state.monitor_step(MonitorEvent::Tick { probe_ok: false });
    assert_eq!(state.current_client(), None);
    assert_eq!(directive, MonitorDirective::Reconnect);

    // The reconnect succeeds; the following tick finds a healthy client.
    state.apply_repair(ConnectOutcome::Connected(2));
    assert_eq!(state.current_client(), Some(2));
    let directive = state.monitor_step(MonitorEvent::Tick { probe_ok: true });
    assert_eq!(directive, MonitorDirective::Idle);
    assert_eq!(state.current_client(), Some(2));
}

#[test]
fn monitor_without_address_stays_idle() {
    let mut state = ConnectionState::new();
    let directive = state.monitor_step(MonitorEvent::Tick { probe_ok: false });
    assert_eq!(directive, MonitorDirective::Idle);
    assert_eq!(state.current_client(), None);
}

#[test]
fn client_blocks_until_successful_connect() {
    let mut state = ConnectionState::new();

    // Before any successful set_address, every poll observes no client.
    assert_eq!(state.current_client(), None);
    state.apply_connect("mongodb://a".to_string(), ConnectOutcome::ConnectFailed);
    assert_eq!(state.current_client(), None);

    // Once a connect succeeds, the next poll observes the client.
    state.apply_connect("mongodb://a".to_string(), ConnectOutcome::Connected(5));
    assert_eq!(state.current_client(), Some(5));
}

#[test]
fn shutdown_reaches_terminal_state_even_when_forced() {
    // The monitor is stuck: the grace timeout elapses and it is aborted.
    let mut state = connected("mongodb://a", 3);
    state.note_monitor_started();
    state.resolve_monitor(MonitorWaitOutcome::GraceElapsed);
    assert!(!state.monitor_running);
    let closing = state.take_client_for_close();
    assert_eq!(closing, Some(3));
    assert_eq!(state.current_client(), None);
}

#[test]
fn shutdown_graceful_path_reaches_same_terminal_state() {
    let mut state = connected("mongodb://a", 3);
    state.note_monitor_started();
    state.resolve_monitor(MonitorWaitOutcome::Exited);
    assert!(!state.monitor_running);
    assert_eq!(state.take_client_for_close(), Some(3));
    assert_eq!(state.current_client(), None);
}

#[test]
fn shutdown_with_nothing_set_is_safe() {
    // No address and no client were ever set; shutdown still completes.
    let mut state = ConnectionState::new();
    state.resolve_monitor(MonitorWaitOutcome::Exited);
    let closing = state.take_client_for_close();
    assert_eq!(closing, None);
    assert!(!state.monitor_running);
    assert_eq!(state.current_client(), None);
    assert!(state.address.is_none());
}

#[test]
fn monitor_survives_repeated_reconnect_failures() {
    let mut state = connected("mongodb://a", 1);
    let mut directives = Vec::new();

    // The client is lost, and several reconnect attempts fail in a row.
    for _ in 0..3 {
        let directive = state.monitor_step(MonitorEvent::Tick { probe_ok: false });
        directives.push(directive);
        if directive == MonitorDirective::Reconnect {
            state.apply_repair(ConnectOutcome::ConnectFailed);
        }
    }
    // Every tick still ran and asked to reconnect; none exited the loop.
    assert_eq!(
        directives,
        vec![
            MonitorDirective::Reconnect,
            MonitorDirective::Reconnect,
            MonitorDirective::Reconnect
        ]
    );

    // A later attempt succeeds and the connection is repaired.
    let directive = state.monitor_step(MonitorEvent::Tick { probe_ok: false });
    assert_eq!(directive, MonitorDirective::Reconnect);
    state.apply_repair(ConnectOutcome::Connected(8));
    assert_eq!(state.current_client(), Some(8));
}

#[test]
fn only_the_shutdown_signal_exits_the_monitor() {
    let mut state = connected("mongodb://a", 1);
    assert_ne!(
        state.monitor_step(MonitorEvent::Tick { probe_ok: false }),
        MonitorDirective::Exit
    );
    assert_ne!(
        state.monitor_step(MonitorEvent::Tick { probe_ok: true }),
        MonitorDirective::Exit
    );
    assert_eq!(
        state.monitor_step(MonitorEvent::ShutdownSignal),
        MonitorDirective::Exit
    );
}

#[test]
fn intervals_match_the_documented_values() {
    assert_eq!(CLIENT_POLL_INTERVAL_MS, 100);
    assert_eq!(MONITOR_TICK_INTERVAL_MS, 250);
    assert_eq!(SHUTDOWN_GRACE_MS, 5000);
}
