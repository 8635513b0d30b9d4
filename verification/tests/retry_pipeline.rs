//! The retry policy and the pipeline, driven through concrete
//! scenarios: first-attempt success, success after three retries, and
//! exhaustion with the pipeline proceeding to the next event.

use agaro_relay::events::{
    Address20, Bytes32, ChainEvent, VoteSucceeded, VotingPollCreated, WithdrawSucceeded,
};
use agaro_relay::logev::{level_color, level_label, LogKind, LogLevel};
use agaro_relay::pipeline::run_pipeline;
use agaro_relay::retry::{
    relay_event, status_is_success, AttemptOutcome, RelayResult, RetryDecision, RetryExecutor,
};
use agaro_relay::u256::U256Value;

fn poll_created(hash_byte: u8) -> ChainEvent {
    ChainEvent::PollCreated(VotingPollCreated {
        version: U256Value::from_u64(1),
        poll_hash: Bytes32::new(vec![hash_byte; 32]),
        voter_storage_hash_location: Bytes32::new(vec![0xBB; 32]),
        candidate_count: vec![U256Value::from_u64(2)],
        synthetic_reward_contract: Address20::new(vec![0x11; 20]),
    })
}

fn vote_cast(hash_byte: u8) -> ChainEvent {
    ChainEvent::VoteCast(VoteSucceeded {
        poll_hash: Bytes32::new(vec![hash_byte; 32]),
        selected: 1,
        commit_token: U256Value::from_u64(5),
        new_poll_voter_hash: Bytes32::new(vec![0xCD; 32]),
        voter: Address20::new(vec![0x22; 20]),
    })
}

fn withdraw_completed(hash_byte: u8) -> ChainEvent {
    ChainEvent::WithdrawCompleted(WithdrawSucceeded {
        poll_hash: Bytes32::new(vec![hash_byte; 32]),
        withdrawed_token: U256Value::from_u64(1000),
        withdrawed_reward: U256Value::from_u64(50),
        voter: Address20::new(vec![0x33; 20]),
    })
}

fn statuses(list: [u16; 4]) -> Vec<AttemptOutcome> {
    let mut outcomes = Vec::new();
    for (i, st) in list.iter().enumerate() {
        outcomes.push(AttemptOutcome::of_status((i + 1) as u8, *st));
    }
    outcomes
}

fn transport_failures() -> Vec<AttemptOutcome> {
    let mut outcomes = Vec::new();
    for i in 1..=4u8 {
        outcomes.push(AttemptOutcome::of_transport_error(
            i,
            String::from("connection refused"),
        ));
    }
    outcomes
}

#[test]
fn executor_counts_attempts_and_stops_at_four() {
    let mut ex = RetryExecutor::new();
    assert_eq!(ex.current_attempt(), 1);
    assert_eq!(
        ex.on_outcome(false),
        RetryDecision::RetryAfterDelay { next_attempt: 2 }
    );
    assert_eq!(
        ex.on_outcome(false),
        RetryDecision::RetryAfterDelay { next_attempt: 3 }
    );
    assert_eq!(
        ex.on_outcome(false),
        RetryDecision::RetryAfterDelay { next_attempt: 4 }
    );
    assert_eq!(ex.on_outcome(false), RetryDecision::Exhausted);
}

#[test]
fn executor_reports_delivery_with_attempt_count() {
    let mut ex = RetryExecutor::new();
    assert_eq!(
        ex.on_outcome(false),
        RetryDecision::RetryAfterDelay { next_attempt: 2 }
    );
    assert_eq!(
        ex.on_outcome(true),
        RetryDecision::Delivered { attempts: 2 }
    );
}

#[test]
fn success_range_is_exactly_2xx() {
    assert!(status_is_success(200));
    assert!(status_is_success(204));
    assert!(status_is_success(299));
    assert!(!status_is_success(199));
    assert!(!status_is_success(300));
    assert!(!status_is_success(500));
}

#[test]
fn poll_activation_succeeding_first_try_logs_once_and_stops() {
    let ev = poll_created(0xAA);
    let (result, logs) = relay_event(&ev, &statuses([200, 500, 500, 500]));
    assert_eq!(result, RelayResult::Delivered { attempts: 1 });
    assert_eq!(logs.len(), 2);
    assert_eq!(logs[0].kind, LogKind::Receipt);
    assert_eq!(logs[0].level, LogLevel::Info);
    assert_eq!(logs[1].kind, LogKind::Delivered);
    assert_eq!(logs[1].level, LogLevel::Success);
    let expected = format!("Activated poll 0x{} successfully", "aa".repeat(32));
    assert_eq!(logs[1].message, expected);
}

#[test]
fn vote_update_failing_thrice_then_succeeding_reports_three_retries() {
    let ev = vote_cast(0xAB);
    let (result, logs) = relay_event(&ev, &statuses([500, 500, 500, 200]));
    assert_eq!(result, RelayResult::Delivered { attempts: 4 });
    assert_eq!(logs.len(), 5);
    for k in 1..=3usize {
        assert_eq!(logs[k].kind, LogKind::AttemptHttpFailure);
        assert_eq!(logs[k].level, LogLevel::Warning);
        let expected = format!(
            "Attempt {} failed for poll 0x{} - status: 500",
            k,
            "ab".repeat(32)
        );
        assert_eq!(logs[k].message, expected);
    }
    let expected = format!(
        "Verified voter's credibility for poll 0x{} successfully after 3 retries",
        "ab".repeat(32)
    );
    assert_eq!(logs[4].kind, LogKind::Delivered);
    assert_eq!(logs[4].message, expected);
}

#[test]
fn withdraw_claim_refused_every_time_exhausts_and_pipeline_proceeds() {
    let events = vec![withdraw_completed(0xEE), withdraw_completed(0xDD)];
    let outcomes = vec![transport_failures(), statuses([200, 200, 200, 200])];
    let reports = run_pipeline("http://api.example", &events, &outcomes);
    assert_eq!(reports.len(), 2);

    assert_eq!(reports[0].result, RelayResult::Exhausted);
    let logs = &reports[0].logs;
    assert_eq!(logs.len(), 6);
    for k in 1..=4usize {
        assert_eq!(logs[k].kind, LogKind::AttemptTransportFailure);
        assert_eq!(logs[k].level, LogLevel::Error);
        let expected = format!(
            "Attempt {} failed for poll=0x{} voter=0x{}: connection refused",
            k,
            "ee".repeat(32),
            "33".repeat(20)
        );
        assert_eq!(logs[k].message, expected);
    }
    let exhausted = &logs[5];
    assert_eq!(exhausted.kind, LogKind::RetriesExhausted);
    assert_eq!(exhausted.level, LogLevel::Error);
    let expected = format!(
        "All retries failed for poll=0x{} voter=0x{} after 3 attempts.",
        "ee".repeat(32),
        "33".repeat(20)
    );
    assert_eq!(exhausted.message, expected);
    assert_eq!(
        logs.iter()
            .filter(|l| l.kind == LogKind::RetriesExhausted)
            .count(),
        1
    );

    // The event after the exhausted one is still relayed.
    assert_eq!(reports[1].result, RelayResult::Delivered { attempts: 1 });
}

#[test]
fn a_failing_pipeline_leaves_an_independent_one_untouched() {
    // Pipeline A: every attempt of every event refused.
    let events_a = vec![poll_created(0x01), poll_created(0x02)];
    let outcomes_a = vec![transport_failures(), transport_failures()];
    // Pipeline B: immediate delivery.
    let events_b = vec![vote_cast(0x03)];
    let outcomes_b = vec![statuses([200, 200, 200, 200])];

    let reports_a = run_pipeline("http://api.example", &events_a, &outcomes_a);
    let reports_b = run_pipeline("http://api.example", &events_b, &outcomes_b);

    assert_eq!(reports_a.len(), 2);
    assert_eq!(reports_a[0].result, RelayResult::Exhausted);
    assert_eq!(reports_a[1].result, RelayResult::Exhausted);
    assert_eq!(reports_b.len(), 1);
    assert_eq!(reports_b[0].result, RelayResult::Delivered { attempts: 1 });
}

#[test]
fn receipt_messages_carry_the_event_fields() {
    let ev = vote_cast(0xAB);
    let (_, logs) = relay_event(&ev, &statuses([200, 200, 200, 200]));
    let expected = format!(
        "[VoteSucceeded] poll_hash=0x{}, voter=0x{}, selected=1, voter_hash=0x{}, commit_token=5",
        "ab".repeat(32),
        "22".repeat(20),
        "cd".repeat(32)
    );
    assert_eq!(logs[0].message, expected);
}

#[test]
fn the_retry_interval_is_one_second() {
    assert_eq!(agaro_relay::retry::retry_interval_secs(), 1);
}

#[test]
fn timestamp_labels_are_bracketed_and_zero_padded() {
    assert_eq!(agaro_relay::logev::timestamp_label(0, 0, 0), "[00:00:00]");
    assert_eq!(agaro_relay::logev::timestamp_label(9, 5, 7), "[09:05:07]");
    assert_eq!(agaro_relay::logev::timestamp_label(23, 59, 42), "[23:59:42]");
}

#[test]
fn levels_map_to_the_console_labels_and_colors() {
    assert_eq!(level_label(LogLevel::Info), "INFO:");
    assert_eq!(level_label(LogLevel::Success), "SUCCESS:");
    assert_eq!(level_label(LogLevel::Warning), "WARNING:");
    assert_eq!(level_label(LogLevel::Error), "ERROR:");
    assert_eq!(level_color(LogLevel::Info), "blue");
    assert_eq!(level_color(LogLevel::Success), "green");
    assert_eq!(level_color(LogLevel::Warning), "yellow");
    assert_eq!(level_color(LogLevel::Error), "red");
}

#[test]
fn mixed_transport_and_status_failures_before_delivery() {
    let ev = withdraw_completed(0xCC);
    let outcomes = vec![
        AttemptOutcome::of_transport_error(1, String::from("timed out")),
        AttemptOutcome::of_status(2, 502),
        AttemptOutcome::of_status(3, 201),
        AttemptOutcome::of_status(4, 500),
    ];
    let (result, logs) = relay_event(&ev, &outcomes);
    assert_eq!(result, RelayResult::Delivered { attempts: 3 });
    assert_eq!(logs.len(), 4);
    assert_eq!(logs[1].kind, LogKind::AttemptTransportFailure);
    assert_eq!(logs[2].kind, LogKind::AttemptHttpFailure);
    assert_eq!(logs[3].kind, LogKind::Delivered);
}
