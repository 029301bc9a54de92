use sqs_replay::engine::{event_matches, init, step, Action, Event};
use sqs_replay::messages::FetchedMessage;

/// Everything one simulated run produced, in order.
struct RunOutcome {
    receives: usize,
    /// (source identity, body, deduplication id, group id) of each send.
    sends: Vec<(String, String, String, String)>,
    deletes: Vec<String>,
    skips: Vec<String>,
    finished: bool,
    failed_receive: bool,
    failed_send: bool,
}

fn msg(id: &str, token: Option<&str>, body: &str) -> FetchedMessage {
    FetchedMessage {
        identity: id.to_string(),
        acknowledgment_token: token.map(|t| t.to_string()),
        body: body.to_string(),
    }
}

/// Drives a whole run against a simulated source queue that answers the
/// n-th receive with the n-th batch (and empty batches after that).  When
/// `fail_send_on` is `Some(n)`, the n-th send reports a transport failure.
fn drive(group: &str, batches: Vec<Vec<FetchedMessage>>, fail_send_on: Option<usize>) -> RunOutcome {
    let mut out = RunOutcome {
        receives: 0,
        sends: Vec::new(),
        deletes: Vec::new(),
        skips: Vec::new(),
        finished: false,
        failed_receive: false,
        failed_send: false,
    };
    let mut batch_iter = batches.into_iter();
    let mut send_count: usize = 0;
    let (mut state, mut action) = init(group.to_string());
    loop {
        let event = match action {
            Action::Receive { max_count, wait_time_seconds, visibility_timeout } => {
                out.receives += 1;
                assert_eq!(max_count, 10);
                assert_eq!(wait_time_seconds, 3);
                assert_eq!(visibility_timeout, 5);
                Event::BatchReceived(batch_iter.next().unwrap_or_default())
            }
            Action::Send { identity, record } => {
                out.sends.push((identity, record.body, record.deduplication_id, record.group_id));
                send_count += 1;
                if fail_send_on == Some(send_count) {
                    Event::SendFailed
                } else {
                    Event::SendSucceeded
                }
            }
            Action::Delete { acknowledgment_token } => {
                out.deletes.push(acknowledgment_token);
                Event::DeleteSucceeded
            }
            Action::Skip { identity } => {
                out.skips.push(identity);
                Event::SkipLogged
            }
            Action::Finish => {
                out.finished = true;
                break;
            }
            Action::FailReceive => {
                out.failed_receive = true;
                break;
            }
            Action::FailSend => {
                out.failed_send = true;
                break;
            }
        };
        assert!(state.is_well_formed());
        assert!(event_matches(&state, &event));
        let (next_state, next_action) = step(state, event);
        state = next_state;
        action = next_action;
    }
    out
}

fn full_batch(start: usize, len: usize) -> Vec<FetchedMessage> {
    (0..len)
        .map(|i| {
            let n = start + i;
            msg(&format!("id-{}", n), Some(&format!("tok-{}", n)), &format!("body-{}", n))
        })
        .collect()
}

#[test]
fn empty_source_performs_one_receive() {
    let out = drive("g", vec![vec![]], None);
    assert_eq!(out.receives, 1);
    assert!(out.sends.is_empty());
    assert!(out.deletes.is_empty());
    assert!(out.skips.is_empty());
    assert!(out.finished);
}

#[test]
fn loop_stops_after_first_short_batch() {
    let out = drive("g", vec![full_batch(0, 10), full_batch(10, 10), full_batch(20, 7)], None);
    assert_eq!(out.receives, 3);
    assert_eq!(out.sends.len(), 27);
    assert_eq!(out.deletes.len(), 27);
    assert!(out.finished);
}

#[test]
fn boundary_sized_batch_takes_one_confirming_receive() {
    let out = drive("g", vec![full_batch(0, 10), vec![]], None);
    assert_eq!(out.receives, 2);
    assert_eq!(out.sends.len(), 10);
    assert!(out.finished);
}

#[test]
fn missing_token_is_skipped_and_run_continues() {
    let batch = vec![
        msg("1", None, "a"),
        msg("2", Some("t2"), "b"),
    ];
    let out = drive("g", vec![batch], None);
    assert_eq!(out.skips, vec!["1".to_string()]);
    assert_eq!(out.sends.len(), 1);
    assert_eq!(out.sends[0].0, "2");
    assert_eq!(out.deletes, vec!["t2".to_string()]);
    assert!(out.finished);
}

#[test]
fn send_failure_is_fatal_and_deletes_nothing() {
    let out = drive("g", vec![full_batch(0, 10), full_batch(10, 10)], Some(1));
    assert!(out.failed_send);
    assert!(!out.finished);
    assert_eq!(out.receives, 1);
    assert_eq!(out.sends.len(), 1);
    assert!(out.deletes.is_empty());
}

#[test]
fn receive_failure_is_fatal() {
    let (state, action) = init("g".to_string());
    assert!(matches!(action, Action::Receive { .. }));
    let (state, action) = step(state, Event::ReceiveFailed);
    assert!(matches!(action, Action::FailReceive));
    assert!(state.is_finished());
}

#[test]
fn every_send_carries_the_callers_group_id() {
    let batch = vec![
        msg("1", Some("t1"), "a"),
        msg("2", Some("t2"), "b"),
        msg("3", Some("t3"), "c"),
    ];
    let out = drive("replay-group", vec![batch], None);
    assert_eq!(out.sends.len(), 3);
    for (_, _, _, group) in &out.sends {
        assert_eq!(group, "replay-group");
    }
}

#[test]
fn deduplication_ids_are_fresh_per_send() {
    let out = drive("g", vec![full_batch(0, 10), full_batch(10, 4)], None);
    assert_eq!(out.sends.len(), 14);
    for (_, _, dedup, _) in &out.sends {
        assert_eq!(dedup.len(), 36);
    }
    for i in 0..out.sends.len() {
        for j in (i + 1)..out.sends.len() {
            assert_ne!(out.sends[i].2, out.sends[j].2);
        }
    }
}

#[test]
fn end_to_end_scenario() {
    let batch = vec![
        msg("1", Some("t1"), "a"),
        msg("2", None, "b"),
    ];
    let out = drive("g", vec![batch], None);
    assert_eq!(out.receives, 1);
    assert_eq!(out.sends.len(), 1);
    let (identity, body, dedup, group) = &out.sends[0];
    assert_eq!(identity, "1");
    assert_eq!(body, "a");
    assert_eq!(dedup.len(), 36);
    assert_eq!(group, "g");
    assert_eq!(out.deletes, vec!["t1".to_string()]);
    assert_eq!(out.skips, vec!["2".to_string()]);
    assert!(out.finished);
    assert!(!out.failed_receive);
    assert!(!out.failed_send);
}

#[test]
fn delete_failure_is_not_fatal() {
    let batch = vec![msg("1", Some("t1"), "a"), msg("2", Some("t2"), "b")];
    let mut deletes: usize = 0;
    let mut sends: usize = 0;
    let mut finished = false;
    let mut batches = vec![batch].into_iter();
    let (mut state, mut action) = init("g".to_string());
    loop {
        let event = match action {
            Action::Receive { .. } => Event::BatchReceived(batches.next().unwrap_or_default()),
            Action::Send { .. } => {
                sends += 1;
                Event::SendSucceeded
            }
            Action::Delete { .. } => {
                deletes += 1;
                Event::DeleteFailed
            }
            Action::Skip { .. } => Event::SkipLogged,
            Action::Finish => {
                finished = true;
                break;
            }
            Action::FailReceive | Action::FailSend => break,
        };
        assert!(state.is_well_formed());
        assert!(event_matches(&state, &event));
        let (next_state, next_action) = step(state, event);
        state = next_state;
        action = next_action;
    }
    assert!(finished);
    assert_eq!(sends, 2);
    assert_eq!(deletes, 2);
}

#[test]
fn mismatched_event_is_rejected_by_event_matches() {
    let (state, _action) = init("g".to_string());
    assert!(event_matches(&state, &Event::BatchReceived(vec![])));
    assert!(event_matches(&state, &Event::ReceiveFailed));
    assert!(!event_matches(&state, &Event::SendSucceeded));
    assert!(!event_matches(&state, &Event::DeleteSucceeded));
    assert!(!event_matches(&state, &Event::SkipLogged));
}
