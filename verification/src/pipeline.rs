//! One relay pipeline, as pure logic: events of one kind are relayed
//! strictly in order, each to its terminal state, and an event whose
//! retries are exhausted never stops the events after it. Waiting for
//! the stream, the transport call and the delay between attempts live
//! outside this crate; they hand the pipeline its events and outcomes.

use vstd::prelude::*;

use crate::events::ChainEvent;
use crate::logev::LogEvent;
use crate::request::{spec_relay_request, to_relay_request, RelayRequest};
use crate::retry::{
    logs_view, outcome_wf, relay_event, spec_relay_logs, spec_relay_result, AttemptOutcome,
    RelayResult,
};

verus! {

/// Everything the relay of one event produced: the request derived
/// from the event, the terminal result, and the log events emitted.
pub struct RelayReport {
    pub request: RelayRequest,
    pub result: RelayResult,
    pub logs: Vec<LogEvent>,
}

/// A report is exactly what the contracts of the mapping and of the
/// retry policy say for this event and these attempt outcomes.
pub open spec fn report_matches(
    base: Seq<char>,
    ev: ChainEvent,
    outcomes: Seq<AttemptOutcome>,
    rep: RelayReport,
) -> bool {
    &&& (rep.request.method, rep.request.url@, rep.request.body@) == spec_relay_request(base, ev)
    &&& rep.result == spec_relay_result(outcomes)
    &&& logs_view(rep.logs@) == spec_relay_logs(ev, outcomes)
}

/// Relays a stream of events of one kind, strictly in order, each to
/// its terminal state before the next is touched. `outcomes[i][k - 1]`
/// is what delivery attempt `k` of event `i` turned out to be. Every
/// event yields exactly one report: a relay that ends in exhaustion
/// drops its event and the pipeline proceeds to the next one.
pub fn run_pipeline(
    api_base: &str,
    events: &Vec<ChainEvent>,
    outcomes: &Vec<Vec<AttemptOutcome>>,
) -> (reports: Vec<RelayReport>)
    requires
        events@.len() == outcomes@.len(),
        forall|i: int| 0 <= i < outcomes@.len() ==> (#[trigger] outcomes@[i])@.len() >= 4,
        forall|i: int, j: int|
            0 <= i < outcomes@.len() && 0 <= j < outcomes@[i]@.len() ==> outcome_wf(
                #[trigger] outcomes@[i]@[j],
            ),
    ensures
        reports@.len() == events@.len(),
        forall|i: int|
            0 <= i < events@.len() ==> report_matches(
                api_base@,
                events@[i],
                outcomes@[i]@,
                #[trigger] reports@[i],
            ),
{
    let mut reports: Vec<RelayReport> = Vec::new();
    let n = events.len();
    let mut i: usize = 0;
    while i < n
        invariant
            n == events@.len(),
            events@.len() == outcomes@.len(),
            forall|k: int| 0 <= k < outcomes@.len() ==> (#[trigger] outcomes@[k])@.len() >= 4,
            forall|k: int, j: int|
                0 <= k < outcomes@.len() && 0 <= j < outcomes@[k]@.len() ==> outcome_wf(
                    #[trigger] outcomes@[k]@[j],
                ),
            i <= n,
            reports@.len() == i,
            forall|k: int|
                0 <= k < i ==> report_matches(
                    api_base@,
                    events@[k],
                    outcomes@[k]@,
                    #[trigger] reports@[k],
                ),
        decreases n - i,
    {
        let ev = &events[i];
        let request = to_relay_request(api_base, ev);
        let (result, logs) = relay_event(ev, &outcomes[i]);
        reports.push(RelayReport { request, result, logs });
        i = i + 1;
    }
    reports
}

} // verus!
