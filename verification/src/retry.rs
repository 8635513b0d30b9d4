//! Bounded, fixed-interval retry of one relay request: one initial
//! attempt and up to three retries, four attempts in all. The policy is
//! a small state machine; `relay_event` drives it over the outcomes the
//! transport produced and returns the terminal result together with the
//! exact sequence of log events the pipeline emits.

use vstd::pervasive::unreached;
use vstd::prelude::*;

use crate::events::ChainEvent;
use crate::logev::{
    exhausted_message, http_failure_message, log_event, receipt_message, spec_exhausted_msg,
    spec_http_failure_msg, spec_receipt_msg, spec_success_msg, spec_transport_failure_msg,
    success_message, transport_failure_message, LogEvent, LogKind, LogLevel,
};

verus! {

/// What one delivery attempt produced, as the pipeline's retry
/// decision and logging consume it. Exactly one of `http_status` and
/// `transport_error` is present; the attempt succeeded exactly when the
/// service answered with a status in the 2xx range.
pub struct AttemptOutcome {
    pub attempt_number: u8,
    pub http_status: Option<u16>,
    pub transport_error: Option<String>,
    pub succeeded: bool,
}

/// Internal consistency of an outcome record.
pub open spec fn outcome_wf(o: AttemptOutcome) -> bool {
    &&& (o.http_status is Some <==> o.transport_error is None)
    &&& o.succeeded == (o.http_status is Some && 200 <= o.http_status.unwrap() <= 299)
}

/// Whether a status lies in the success range.
pub fn status_is_success(status: u16) -> (r: bool)
    ensures
        r == (200 <= status <= 299),
{
    200 <= status && status <= 299
}

impl AttemptOutcome {
    /// The outcome of an attempt that got an HTTP answer.
    pub fn of_status(attempt_number: u8, status: u16) -> (r: AttemptOutcome)
        ensures
            outcome_wf(r),
            r.attempt_number == attempt_number,
            r.http_status == Some(status),
            r.transport_error is None,
            r.succeeded == (200 <= status <= 299),
    {
        let ok = status_is_success(status);
        AttemptOutcome {
            attempt_number,
            http_status: Some(status),
            transport_error: None,
            succeeded: ok,
        }
    }

    /// The outcome of an attempt that never reached the service.
    pub fn of_transport_error(attempt_number: u8, error: String) -> (r: AttemptOutcome)
        ensures
            outcome_wf(r),
            r.attempt_number == attempt_number,
            r.http_status is None,
            r.transport_error matches Some(e) && e@ == error@,
            !r.succeeded,
    {
        AttemptOutcome {
            attempt_number,
            http_status: None,
            transport_error: Some(error),
            succeeded: false,
        }
    }
}

/// The fixed number of seconds a driver sleeps between one failed
/// attempt and the next: the retry policy's one numeric parameter
/// besides the attempt bound.
pub fn retry_interval_secs() -> (r: u64)
    ensures
        r == 1,
{
    1
}

/// What the retry executor tells its driver after one attempt.
#[derive(Clone, Copy, PartialEq, Eq, Structural, Debug)]
pub enum RetryDecision {
    /// The request was delivered; this many attempts were used.
    Delivered { attempts: u8 },
    /// Sleep the fixed interval, then send the identical request again.
    RetryAfterDelay { next_attempt: u8 },
    /// All four attempts failed; give the request up.
    Exhausted,
}

/// The terminal state of relaying one event.
#[derive(Clone, Copy, PartialEq, Eq, Structural, Debug)]
pub enum RelayResult {
    Delivered { attempts: u8 },
    Exhausted,
}

/// The retry state machine for one request: which attempt is in
/// flight. It never allows a fifth attempt.
pub struct RetryExecutor {
    pub attempt: u8,
}

impl RetryExecutor {
    /// The attempt in flight is always the first to the fourth.
    pub open spec fn wf(self) -> bool {
        1 <= self.attempt <= 4
    }

    /// A fresh executor, about to make the first attempt.
    pub fn new() -> (r: RetryExecutor)
        ensures
            r.wf(),
            r.attempt == 1,
    {
        RetryExecutor { attempt: 1 }
    }

    /// The number of the attempt in flight.
    pub fn current_attempt(&self) -> (n: u8)
        ensures
            n == self.attempt,
    {
        self.attempt
    }

    /// Decides from one attempt's outcome: deliver, retry after the
    /// fixed delay, or report exhaustion after the fourth failure.
    pub fn on_outcome(&mut self, succeeded: bool) -> (d: RetryDecision)
        requires
            old(self).wf(),
        ensures
            final(self).wf(),
            succeeded ==> d == (RetryDecision::Delivered { attempts: old(self).attempt })
                && *final(self) == *old(self),
            !succeeded && old(self).attempt < 4 ==> d == (RetryDecision::RetryAfterDelay {
                next_attempt: (old(self).attempt + 1) as u8,
            }) && final(self).attempt == old(self).attempt + 1,
            !succeeded && old(self).attempt == 4 ==> d == RetryDecision::Exhausted && *final(self)
                == *old(self),
    {
        if succeeded {
            RetryDecision::Delivered { attempts: self.attempt }
        } else if self.attempt < 4 {
            self.attempt = self.attempt + 1;
            RetryDecision::RetryAfterDelay { next_attempt: self.attempt }
        } else {
            RetryDecision::Exhausted
        }
    }
}

/// The success of each attempt, in order.
pub open spec fn ok_of(outcomes: Seq<AttemptOutcome>) -> Seq<bool> {
    outcomes.map_values(|o: AttemptOutcome| o.succeeded)
}

/// How many attempts the policy makes when attempt `k` would turn out
/// as `oks[k - 1]`: it stops at the first success, and never goes past
/// the fourth attempt.
pub open spec fn spec_attempts_used(oks: Seq<bool>) -> int {
    if oks.len() >= 1 && oks[0] {
        1
    } else if oks.len() >= 2 && oks[1] {
        2
    } else if oks.len() >= 3 && oks[2] {
        3
    } else {
        4
    }
}

/// Whether the attempt the policy stops at succeeds.
pub open spec fn spec_delivered(oks: Seq<bool>) -> bool {
    oks.len() >= spec_attempts_used(oks) && oks[spec_attempts_used(oks) - 1]
}

/// The terminal result of relaying one request against the given
/// attempt outcomes.
pub open spec fn spec_relay_result(outcomes: Seq<AttemptOutcome>) -> RelayResult {
    if spec_delivered(ok_of(outcomes)) {
        RelayResult::Delivered { attempts: spec_attempts_used(ok_of(outcomes)) as u8 }
    } else {
        RelayResult::Exhausted
    }
}

/// The one log event a failed attempt emits: a warning for a
/// non-success status, an error for a transport failure.
pub open spec fn spec_attempt_log(ev: ChainEvent, o: AttemptOutcome, k: int) -> (LogKind, LogLevel, Seq<char>) {
    if o.transport_error is Some {
        (
            LogKind::AttemptTransportFailure,
            LogLevel::Error,
            spec_transport_failure_msg(ev, k, o.transport_error.unwrap()@),
        )
    } else {
        (
            LogKind::AttemptHttpFailure,
            LogLevel::Warning,
            spec_http_failure_msg(ev, k, o.http_status.unwrap()),
        )
    }
}

/// The log events emitted from attempt `k` on: one per failed attempt,
/// then either one success report or one exhaustion report.
pub open spec fn spec_relay_logs_from(
    ev: ChainEvent,
    outcomes: Seq<AttemptOutcome>,
    k: int,
) -> Seq<(LogKind, LogLevel, Seq<char>)>
    decreases 5 - k,
{
    if !(1 <= k <= 4) || outcomes.len() < k {
        Seq::empty()
    } else {
        let o = outcomes[k - 1];
        if o.succeeded {
            seq![(LogKind::Delivered, LogLevel::Success, spec_success_msg(ev, k))]
        } else if k == 4 {
            seq![
                spec_attempt_log(ev, o, k),
                (LogKind::RetriesExhausted, LogLevel::Error, spec_exhausted_msg(ev)),
            ]
        } else {
            seq![spec_attempt_log(ev, o, k)] + spec_relay_logs_from(ev, outcomes, k + 1)
        }
    }
}

/// Every log event the pipeline emits for one event: the receipt
/// report, then the attempt reports.
pub open spec fn spec_relay_logs(ev: ChainEvent, outcomes: Seq<AttemptOutcome>) -> Seq<(LogKind, LogLevel, Seq<char>)> {
    seq![(LogKind::Receipt, LogLevel::Info, spec_receipt_msg(ev))] + spec_relay_logs_from(
        ev,
        outcomes,
        1,
    )
}

/// The views of a list of log events.
pub open spec fn logs_view(logs: Seq<LogEvent>) -> Seq<(LogKind, LogLevel, Seq<char>)> {
    logs.map_values(|e: LogEvent| e@)
}

/// Relays one event to its terminal state, given the outcome each
/// delivery attempt turned out to have. Attempt `k` consumes
/// `outcomes[k - 1]`; attempts stop at the first success and never
/// exceed four. Returns the terminal result and the exact log events
/// the pipeline emits for this event.
pub fn relay_event(ev: &ChainEvent, outcomes: &Vec<AttemptOutcome>) -> (r: (
    RelayResult,
    Vec<LogEvent>,
))
    requires
        outcomes@.len() >= 4,
        forall|i: int| 0 <= i < outcomes@.len() ==> outcome_wf(#[trigger] outcomes@[i]),
    ensures
        r.0 == spec_relay_result(outcomes@),
        logs_view(r.1@) == spec_relay_logs(*ev, outcomes@),
{
    let mut logs: Vec<LogEvent> = Vec::new();
    logs.push(log_event(LogKind::Receipt, receipt_message(ev)));
    proof {
        assert(logs_view(logs@) =~= seq![
            (LogKind::Receipt, LogLevel::Info, spec_receipt_msg(*ev)),
        ]);
    }
    let mut ex = RetryExecutor::new();
    loop
        invariant
            outcomes@.len() >= 4,
            forall|i: int| 0 <= i < outcomes@.len() ==> outcome_wf(#[trigger] outcomes@[i]),
            ex.wf(),
            forall|j: int| 0 <= j < ex.attempt - 1 ==> !outcomes@[j].succeeded,
            spec_relay_logs(*ev, outcomes@) == logs_view(logs@) + spec_relay_logs_from(
                *ev,
                outcomes@,
                ex.attempt as int,
            ),
        decreases 4 - ex.attempt,
    {
        let k = ex.current_attempt();
        let o = &outcomes[(k - 1) as usize];
        let ghost oks = ok_of(outcomes@);
        proof {
            assert(oks.len() == outcomes@.len());
            assert(forall|j: int| 0 <= j < outcomes@.len() ==> oks[j] == outcomes@[j].succeeded);
        }
        let ghost prev = logs@;
        let d = ex.on_outcome(o.succeeded);
        match d {
            RetryDecision::Delivered { attempts } => {
                logs.push(log_event(LogKind::Delivered, success_message(ev, attempts)));
                proof {
                    assert(spec_relay_logs_from(*ev, outcomes@, k as int) =~= seq![
                        (
                            LogKind::Delivered,
                            LogLevel::Success,
                            spec_success_msg(*ev, k as int),
                        ),
                    ]);
                    assert(logs_view(logs@) =~= logs_view(prev) + spec_relay_logs_from(
                        *ev,
                        outcomes@,
                        k as int,
                    ));
                    assert(logs_view(logs@) == spec_relay_logs(*ev, outcomes@));
                    assert(oks[k - 1]);
                    assert(spec_attempts_used(oks) == k);
                    assert(spec_delivered(oks));
                }
                return (RelayResult::Delivered { attempts }, logs);
            },
            RetryDecision::Exhausted => {
                let fl = attempt_failure_log(ev, k, o);
                logs.push(fl);
                logs.push(log_event(LogKind::RetriesExhausted, exhausted_message(ev)));
                proof {
                    assert(spec_relay_logs_from(*ev, outcomes@, 4) =~= seq![
                        spec_attempt_log(*ev, outcomes@[3], 4),
                        (LogKind::RetriesExhausted, LogLevel::Error, spec_exhausted_msg(*ev)),
                    ]);
                    assert(logs_view(logs@) =~= logs_view(prev) + spec_relay_logs_from(
                        *ev,
                        outcomes@,
                        4,
                    ));
                    assert(logs_view(logs@) == spec_relay_logs(*ev, outcomes@));
                    assert(!oks[0] && !oks[1] && !oks[2] && !oks[3]);
                    assert(spec_attempts_used(oks) == 4);
                    assert(!spec_delivered(oks));
                }
                return (RelayResult::Exhausted, logs);
            },
            RetryDecision::RetryAfterDelay { next_attempt: _ } => {
                let fl = attempt_failure_log(ev, k, o);
                logs.push(fl);
                proof {
                    assert(spec_relay_logs_from(*ev, outcomes@, k as int) =~= seq![
                        spec_attempt_log(*ev, outcomes@[k - 1], k as int),
                    ] + spec_relay_logs_from(*ev, outcomes@, (k as int) + 1));
                    assert(logs_view(logs@) =~= logs_view(prev) + seq![
                        spec_attempt_log(*ev, outcomes@[k - 1], k as int),
                    ]);
                    assert(spec_relay_logs(*ev, outcomes@) =~= logs_view(logs@)
                        + spec_relay_logs_from(*ev, outcomes@, ex.attempt as int));
                }
            },
        }
    }
}

/// How many of the log events report exhaustion (or any other chosen
/// kind).
pub open spec fn spec_count_kind(logs: Seq<(LogKind, LogLevel, Seq<char>)>, kind: LogKind) -> int
    decreases logs.len(),
{
    if logs.len() == 0 {
        0
    } else {
        spec_count_kind(logs.drop_last(), kind) + if logs.last().0 == kind {
            1int
        } else {
            0int
        }
    }
}

/// Counting log kinds distributes over concatenation.
pub proof fn lemma_count_kind_add(
    a: Seq<(LogKind, LogLevel, Seq<char>)>,
    b: Seq<(LogKind, LogLevel, Seq<char>)>,
    kind: LogKind,
)
    ensures
        spec_count_kind(a + b, kind) == spec_count_kind(a, kind) + spec_count_kind(b, kind),
    decreases b.len(),
{
    if b.len() == 0 {
        assert(a + b =~= a);
    } else {
        assert((a + b).drop_last() =~= a + b.drop_last());
        lemma_count_kind_add(a, b.drop_last(), kind);
        assert((a + b).last() == b.last());
    }
}

/// The retry policy makes at least one and at most four attempts for
/// one request, whatever the attempts' outcomes.
pub proof fn lemma_attempt_bound(oks: Seq<bool>)
    ensures
        1 <= spec_attempts_used(oks) <= 4,
{
}

/// If attempt `k` succeeds and every attempt before it failed, the
/// relay stops at attempt `k` and reports delivery: no later outcome
/// is consulted.
pub proof fn lemma_first_success_stops(oks: Seq<bool>, k: int)
    requires
        1 <= k <= 4,
        k <= oks.len(),
        oks[k - 1],
        forall|j: int| 0 <= j < k - 1 ==> !oks[j],
    ensures
        spec_attempts_used(oks) == k,
        spec_delivered(oks),
{
}

/// After a success at attempt `k` (with every earlier attempt failed),
/// the pipeline emits exactly one receipt report, `k - 1` failure
/// reports and one success report, in that order: nothing follows the
/// success.
pub proof fn lemma_success_log_shape(ev: ChainEvent, outcomes: Seq<AttemptOutcome>, k: int)
    requires
        1 <= k <= 4,
        outcomes.len() >= 4,
        outcomes[k - 1].succeeded,
        forall|j: int| 0 <= j < k - 1 ==> !(#[trigger] outcomes[j]).succeeded,
    ensures
        spec_relay_logs(ev, outcomes).len() == k + 1,
        spec_relay_logs(ev, outcomes).first() == (
            LogKind::Receipt,
            LogLevel::Info,
            spec_receipt_msg(ev),
        ),
        spec_relay_logs(ev, outcomes).last() == (
            LogKind::Delivered,
            LogLevel::Success,
            spec_success_msg(ev, k),
        ),
        spec_relay_result(outcomes) == (RelayResult::Delivered { attempts: k as u8 }),
{
    reveal_with_fuel(spec_relay_logs_from, 5);
    let oks = ok_of(outcomes);
    assert(forall|j: int| 0 <= j < outcomes.len() ==> oks[j] == (
    #[trigger] outcomes[j]).succeeded);
    lemma_first_success_stops(oks, k);
}

/// If all four attempts fail, the relay reports exhaustion and emits
/// exactly one exhaustion-level report; if some attempt delivers, it
/// emits none.
pub proof fn lemma_exhaustion_logged_once(ev: ChainEvent, outcomes: Seq<AttemptOutcome>)
    requires
        outcomes.len() >= 4,
    ensures
        spec_count_kind(spec_relay_logs(ev, outcomes), LogKind::RetriesExhausted) == if spec_delivered(
            ok_of(outcomes),
        ) {
            0int
        } else {
            1int
        },
        !spec_delivered(ok_of(outcomes)) ==> spec_relay_result(outcomes)
            == RelayResult::Exhausted,
{
    reveal_with_fuel(spec_relay_logs_from, 5);
    reveal_with_fuel(spec_count_kind, 3);
    let oks = ok_of(outcomes);
    assert(forall|j: int| 0 <= j < outcomes.len() ==> oks[j] == (
    #[trigger] outcomes[j]).succeeded);
    let receipt = seq![(LogKind::Receipt, LogLevel::Info, spec_receipt_msg(ev))];
    assert(receipt.drop_last() =~= Seq::<(LogKind, LogLevel, Seq<char>)>::empty());
    assert(spec_count_kind(receipt, LogKind::RetriesExhausted) == 0);
    lemma_count_kind_add(receipt, spec_relay_logs_from(ev, outcomes, 1), LogKind::RetriesExhausted);
    lemma_count_from(ev, outcomes, 1);
}

/// From attempt `k` on, the emitted reports hold exactly one
/// exhaustion report when every attempt from `k` fails, and none when
/// one succeeds.
proof fn lemma_count_from(ev: ChainEvent, outcomes: Seq<AttemptOutcome>, k: int)
    requires
        1 <= k <= 4,
        outcomes.len() >= 4,
    ensures
        spec_count_kind(spec_relay_logs_from(ev, outcomes, k), LogKind::RetriesExhausted) == if (
        exists|j: int| k - 1 <= j < 4 && (#[trigger] outcomes[j]).succeeded) {
            0int
        } else {
            1int
        },
    decreases 5 - k,
{
    reveal_with_fuel(spec_count_kind, 3);
    let o = outcomes[k - 1];
    if o.succeeded {
        let single = seq![(LogKind::Delivered, LogLevel::Success, spec_success_msg(ev, k))];
        assert(single.drop_last() =~= Seq::<(LogKind, LogLevel, Seq<char>)>::empty());
        assert(spec_relay_logs_from(ev, outcomes, k) == single);
    } else if k == 4 {
        let pair = seq![
            spec_attempt_log(ev, o, k),
            (LogKind::RetriesExhausted, LogLevel::Error, spec_exhausted_msg(ev)),
        ];
        assert(pair.drop_last() =~= seq![spec_attempt_log(ev, o, k)]);
        assert(pair.drop_last().drop_last() =~= Seq::<(LogKind, LogLevel, Seq<char>)>::empty());
        assert(spec_count_kind(pair, LogKind::RetriesExhausted) == 1);
    } else {
        let head = seq![spec_attempt_log(ev, o, k)];
        assert(head.drop_last() =~= Seq::<(LogKind, LogLevel, Seq<char>)>::empty());
        assert(spec_count_kind(head, LogKind::RetriesExhausted) == 0);
        lemma_count_from(ev, outcomes, k + 1);
        lemma_count_kind_add(
            head,
            spec_relay_logs_from(ev, outcomes, k + 1),
            LogKind::RetriesExhausted,
        );
    }
}

/// The log event for failed attempt `k`.
fn attempt_failure_log(ev: &ChainEvent, k: u8, o: &AttemptOutcome) -> (e: LogEvent)
    requires
        outcome_wf(*o),
        !o.succeeded,
    ensures
        e@ == spec_attempt_log(*ev, *o, k as int),
{
    match &o.transport_error {
        Some(err) => log_event(
            LogKind::AttemptTransportFailure,
            transport_failure_message(ev, k, err.as_str()),
        ),
        None => {
            let st = match o.http_status {
                Some(s) => s,
                None => unreached(),
            };
            log_event(LogKind::AttemptHttpFailure, http_failure_message(ev, k, st))
        },
    }
}

} // verus!
