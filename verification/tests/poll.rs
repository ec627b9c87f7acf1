use toolbox::client::{NutClient, Reply, Step};
use toolbox::error::{Expected, NutError};
use toolbox::poll::{Phase, PollAction, PollEvent, PollSnapshot, PollingLoop, TICK_SECONDS};
use toolbox::table::VariableTable;

fn started() -> (PollingLoop, PollAction) {
    let (client, step) = NutClient::connect(String::new(), String::new());
    assert!(matches!(step, Step::Done(Reply::Ready)));
    assert!(client.is_idle());
    PollingLoop::start(client)
}

fn lines(polling: PollingLoop, response: &str) -> (PollingLoop, PollAction) {
    let mut polling = polling;
    let mut last = PollAction::Read;
    for raw in response.split_inclusive('\n') {
        let (next, action) = polling.step(PollEvent::Line(raw.to_string()));
        polling = next;
        last = action;
        if !matches!(last, PollAction::Read) {
            break;
        }
    }
    (polling, last)
}

fn sent(action: PollAction) -> String {
    match action {
        PollAction::Send(wire) => wire,
        other => panic!("expected a line to send, got {:?}", other),
    }
}

fn emitted(action: PollAction) -> PollSnapshot {
    match action {
        PollAction::Emit(snapshot) => snapshot,
        other => panic!("expected a snapshot, got {:?}", other),
    }
}

fn pairs(entries: &[(&str, &str)]) -> Vec<(String, String)> {
    entries.iter().map(|(a, b)| (a.to_string(), b.to_string())).collect()
}

const TWO_DEVICES: &str = "BEGIN LIST UPS\nUPS ups1 \"Desc 1\"\nUPS ups2 \"Desc 2\"\nEND LIST UPS\n";

#[test]
fn the_tick_is_two_seconds() {
    assert_eq!(TICK_SECONDS, 2);
}

#[test]
fn the_loop_begins_with_the_device_list() {
    let (polling, action) = started();
    assert_eq!(sent(action), "LIST UPS\n");
    assert_eq!(polling.phase(), Phase::Discovering);
    assert!(!polling.is_stopped());
}

#[test]
fn a_round_asks_every_device_in_order_and_emits_one_snapshot() {
    let (polling, _) = started();
    let (polling, action) = lines(polling, TWO_DEVICES);
    assert_eq!(sent(action), "LIST VAR ups1\n");
    assert_eq!(polling.phase(), Phase::Querying);
    let (polling, action) = lines(
        polling,
        "BEGIN LIST VAR ups1\nVAR ups1 ups.status \"OL\"\nVAR ups1 battery.charge \"100\"\nEND LIST VAR ups1\n",
    );
    assert_eq!(sent(action), "LIST VAR ups2\n");
    let (polling, action) = lines(polling, "BEGIN LIST VAR ups2\nVAR ups2 ups.status \"OB\"\nEND LIST VAR ups2\n");
    let snapshot = emitted(action);
    assert_eq!(polling.phase(), Phase::Sleeping);
    assert_eq!(snapshot.len(), 2);
    assert_eq!(snapshot.names(), vec!["ups1".to_string(), "ups2".to_string()]);
    assert_eq!(snapshot.name_at(0), "ups1");
    assert_eq!(
        snapshot.table_at(0).sorted(),
        pairs(&[("battery.charge", "100"), ("ups.status", "OL")])
    );
    assert_eq!(snapshot.table_at(1).sorted(), pairs(&[("ups.status", "OB")]));
    assert_eq!(snapshot.find("ups2"), Some(1));
    assert_eq!(snapshot.find("ups3"), None);
}

#[test]
fn the_next_round_asks_the_same_devices_again() {
    let (polling, _) = started();
    let (polling, _) = lines(polling, "BEGIN LIST UPS\nUPS only \"one\"\nEND LIST UPS\n");
    let (polling, action) = lines(polling, "BEGIN LIST VAR only\nVAR only a \"1\"\nEND LIST VAR only\n");
    assert_eq!(emitted(action).table_at(0).get("a"), Some("1".to_string()));
    let (polling, action) = polling.step(PollEvent::Woke);
    assert_eq!(sent(action), "LIST VAR only\n");
    let (polling, action) = lines(polling, "BEGIN LIST VAR only\nVAR only a \"2\"\nEND LIST VAR only\n");
    let snapshot = emitted(action);
    assert_eq!(snapshot.len(), 1);
    assert_eq!(snapshot.table_at(0).get("a"), Some("2".to_string()));
    assert_eq!(polling.phase(), Phase::Sleeping);
}

#[test]
fn no_device_gives_an_empty_snapshot() {
    let (polling, _) = started();
    let (polling, action) = lines(polling, "BEGIN LIST UPS\nEND LIST UPS\n");
    assert_eq!(emitted(action).len(), 0);
    assert_eq!(polling.phase(), Phase::Sleeping);
}

#[test]
fn a_device_listed_twice_stands_once_in_the_snapshot() {
    let (polling, _) = started();
    let (polling, _) = lines(polling, "BEGIN LIST UPS\nUPS a \"x\"\nUPS a \"y\"\nEND LIST UPS\n");
    let (polling, action) = lines(polling, "BEGIN LIST VAR a\nVAR a v \"1\"\nEND LIST VAR a\n");
    assert_eq!(sent(action), "LIST VAR a\n");
    let (_, action) = lines(polling, "BEGIN LIST VAR a\nVAR a v \"2\"\nEND LIST VAR a\n");
    let snapshot = emitted(action);
    assert_eq!(snapshot.len(), 1);
    assert_eq!(snapshot.table_at(0).get("v"), Some("2".to_string()));
}

#[test]
fn a_failed_device_list_ends_the_loop() {
    let (polling, _) = started();
    let (polling, action) = polling.step(PollEvent::Line("ERR ACCESS-DENIED\n".to_string()));
    match action {
        PollAction::Fail(e) => assert_eq!(e, NutError::ProtocolViolation(Expected::ListOpening, "ERR ACCESS-DENIED".to_string())),
        other => panic!("unexpected {:?}", other),
    }
    assert!(polling.is_stopped());
}

#[test]
fn a_failure_in_a_round_gives_no_partial_snapshot() {
    let (polling, _) = started();
    let (polling, _) = lines(polling, TWO_DEVICES);
    let (polling, action) = lines(polling, "BEGIN LIST VAR ups1\nVAR ups1 ups.status \"OL\"\nEND LIST VAR ups1\n");
    assert_eq!(sent(action), "LIST VAR ups2\n");
    let (polling, action) = polling.step(PollEvent::Failed("connection reset".to_string()));
    match action {
        PollAction::Fail(e) => assert_eq!(e, NutError::Network("connection reset".to_string())),
        other => panic!("unexpected {:?}", other),
    }
    assert!(polling.is_stopped());
    let (polling, action) = polling.step(PollEvent::Woke);
    assert!(matches!(action, PollAction::Stop));
    assert!(polling.is_stopped());
}

#[test]
fn a_closed_connection_gives_one_failure_and_nothing_more() {
    let (polling, _) = started();
    let (polling, _) = lines(polling, TWO_DEVICES);
    let (polling, action) = lines(polling, "BEGIN LIST VAR ups1\n");
    assert!(matches!(action, PollAction::Read));
    let (polling, action) = polling.step(PollEvent::Line(String::new()));
    match action {
        PollAction::Fail(e) => assert_eq!(e, NutError::ConnectionClosed),
        other => panic!("unexpected {:?}", other),
    }
    assert!(polling.is_stopped());
    let mut polling = polling;
    for event in [
        PollEvent::Line(String::new()),
        PollEvent::Line("END LIST VAR ups1\n".to_string()),
        PollEvent::Woke,
        PollEvent::Cancel,
        PollEvent::Failed("late".to_string()),
    ] {
        let (next, action) = polling.step(event);
        assert!(matches!(action, PollAction::Stop));
        assert!(next.is_stopped());
        polling = next;
    }
}

#[test]
fn cancellation_during_the_sleep_stops_the_loop() {
    let (polling, _) = started();
    let (polling, action) = lines(polling, "BEGIN LIST UPS\nEND LIST UPS\n");
    assert!(matches!(action, PollAction::Emit(_)));
    let (polling, action) = polling.step(PollEvent::Cancel);
    assert!(matches!(action, PollAction::Stop));
    assert!(polling.is_stopped());
    let (polling, action) = polling.step(PollEvent::Woke);
    assert!(matches!(action, PollAction::Stop));
    let (polling, action) = polling.step(PollEvent::Cancel);
    assert!(matches!(action, PollAction::Stop));
    assert!(polling.is_stopped());
}

#[test]
fn cancellation_during_a_request_stops_before_the_next_device() {
    let (polling, _) = started();
    let (polling, _) = lines(polling, TWO_DEVICES);
    let (polling, action) = lines(polling, "BEGIN LIST VAR ups1\n");
    assert!(matches!(action, PollAction::Read));
    let (polling, action) = polling.step(PollEvent::Cancel);
    assert!(matches!(action, PollAction::Continue));
    assert!(!polling.is_stopped());
    let (polling, action) = polling.step(PollEvent::Cancel);
    assert!(matches!(action, PollAction::Continue));
    let (polling, action) = lines(polling, "VAR ups1 ups.status \"OL\"\nEND LIST VAR ups1\n");
    assert!(matches!(action, PollAction::Stop));
    assert!(polling.is_stopped());
}

#[test]
fn what_does_not_fit_the_phase_is_passed_over() {
    let (polling, _) = started();
    let (polling, action) = polling.step(PollEvent::Woke);
    assert!(matches!(action, PollAction::Continue));
    assert_eq!(polling.phase(), Phase::Discovering);
    let (polling, _) = lines(polling, "BEGIN LIST UPS\nEND LIST UPS\n");
    let (polling, action) = polling.step(PollEvent::Line("stray\n".to_string()));
    assert!(matches!(action, PollAction::Continue));
    assert_eq!(polling.phase(), Phase::Sleeping);
}

#[test]
fn a_snapshot_takes_a_table_per_device() {
    let mut snapshot = PollSnapshot::new();
    assert_eq!(snapshot.len(), 0);
    let mut first = VariableTable::new();
    first.insert("a".to_string(), "1".to_string());
    snapshot.insert("x".to_string(), first);
    snapshot.insert("y".to_string(), VariableTable::new());
    let mut again = VariableTable::new();
    again.insert("a".to_string(), "2".to_string());
    snapshot.insert("x".to_string(), again);
    assert_eq!(snapshot.names(), vec!["x".to_string(), "y".to_string()]);
    assert_eq!(snapshot.table_at(0).get("a"), Some("2".to_string()));
    assert_eq!(snapshot.table_at(1).len(), 0);
}
