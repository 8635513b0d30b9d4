//! Semantic log events. The relay core reports what happened as a
//! `LogEvent`; how a notifier renders one (timestamps, colors, the
//! console) is outside this crate. The message text for every kind of
//! event is pinned by the contracts here.

use vstd::prelude::*;

use crate::events::ChainEvent;
use crate::hexfmt::{append_hex, append_u64_dec, dec_digit, dec_digit_char, dec_of, hex_of_bytes, push_char};
use crate::u256::append_u256_dec;
use vstd::string::*;

verus! {

/// Severity of a log emission.
#[derive(Clone, Copy, PartialEq, Eq, Structural, Debug)]
pub enum LogLevel {
    Info,
    Success,
    Warning,
    Error,
}

/// What a log emission reports.
#[derive(Clone, Copy, PartialEq, Eq, Structural, Debug)]
pub enum LogKind {
    /// An event was received from its stream.
    Receipt,
    /// The relay call succeeded.
    Delivered,
    /// One attempt got a non-success HTTP status.
    AttemptHttpFailure,
    /// One attempt failed to reach the downstream service at all.
    AttemptTransportFailure,
    /// Every allowed attempt failed; the event is dropped.
    RetriesExhausted,
}

/// The severity each kind of report carries.
pub open spec fn spec_level_for(kind: LogKind) -> LogLevel {
    match kind {
        LogKind::Receipt => LogLevel::Info,
        LogKind::Delivered => LogLevel::Success,
        LogKind::AttemptHttpFailure => LogLevel::Warning,
        LogKind::AttemptTransportFailure => LogLevel::Error,
        LogKind::RetriesExhausted => LogLevel::Error,
    }
}

/// One leveled log emission.
pub struct LogEvent {
    pub kind: LogKind,
    pub level: LogLevel,
    pub message: String,
}

impl LogEvent {
    /// The level always matches the kind.
    pub open spec fn wf(&self) -> bool {
        self.level == spec_level_for(self.kind)
    }
}

impl View for LogEvent {
    type V = (LogKind, LogLevel, Seq<char>);

    open spec fn view(&self) -> Self::V {
        (self.kind, self.level, self.message@)
    }
}

/// A log event of the given kind, at that kind's level.
pub fn log_event(kind: LogKind, message: String) -> (e: LogEvent)
    ensures
        e.wf(),
        e@ == (kind, spec_level_for(kind), message@),
{
    let level = match kind {
        LogKind::Receipt => LogLevel::Info,
        LogKind::Delivered => LogLevel::Success,
        LogKind::AttemptHttpFailure => LogLevel::Warning,
        LogKind::AttemptTransportFailure => LogLevel::Error,
        LogKind::RetriesExhausted => LogLevel::Error,
    };
    LogEvent { kind, level, message }
}

/// The label a console notifier prints for a level.
pub fn level_label(level: LogLevel) -> (r: &'static str)
    ensures
        level == LogLevel::Info ==> r@ == "INFO:"@,
        level == LogLevel::Success ==> r@ == "SUCCESS:"@,
        level == LogLevel::Warning ==> r@ == "WARNING:"@,
        level == LogLevel::Error ==> r@ == "ERROR:"@,
{
    match level {
        LogLevel::Info => "INFO:",
        LogLevel::Success => "SUCCESS:",
        LogLevel::Warning => "WARNING:",
        LogLevel::Error => "ERROR:",
    }
}

/// The color a console notifier uses for a level.
pub fn level_color(level: LogLevel) -> (r: &'static str)
    ensures
        level == LogLevel::Info ==> r@ == "blue"@,
        level == LogLevel::Success ==> r@ == "green"@,
        level == LogLevel::Warning ==> r@ == "yellow"@,
        level == LogLevel::Error ==> r@ == "red"@,
{
    match level {
        LogLevel::Info => "blue",
        LogLevel::Success => "green",
        LogLevel::Warning => "yellow",
        LogLevel::Error => "red",
    }
}

/// A value below one hundred as exactly two decimal digits.
pub open spec fn spec_two_digits(n: int) -> Seq<char> {
    seq![dec_digit(n / 10), dec_digit(n % 10)]
}

/// The bracketed clock reading a console notifier prefixes to every
/// line, from a wall-clock hour, minute and second.
pub open spec fn spec_timestamp_label(hour: int, minute: int, second: int) -> Seq<char> {
    "["@ + spec_two_digits(hour) + ":"@ + spec_two_digits(minute) + ":"@ + spec_two_digits(second)
        + "]"@
}

/// Appends a value below one hundred as exactly two decimal digits.
fn append_two_digits(s: &mut String, n: u8)
    requires
        n < 100,
    ensures
        final(s)@ == old(s)@ + spec_two_digits(n as int),
{
    push_char(s, dec_digit_char(n / 10));
    push_char(s, dec_digit_char(n % 10));
}

/// Builds the bracketed clock reading for a console line. Reading the
/// clock itself is outside this crate.
pub fn timestamp_label(hour: u8, minute: u8, second: u8) -> (r: String)
    requires
        hour < 24,
        minute < 60,
        second < 60,
    ensures
        r@ == spec_timestamp_label(hour as int, minute as int, second as int),
{
    let mut s = String::new();
    s.append("[");
    append_two_digits(&mut s, hour);
    s.append(":");
    append_two_digits(&mut s, minute);
    s.append(":");
    append_two_digits(&mut s, second);
    s.append("]");
    proof {
        assert(s@ =~= spec_timestamp_label(hour as int, minute as int, second as int));
    }
    s
}

/// How messages name the entity an event is about.
pub open spec fn spec_subject(ev: ChainEvent) -> Seq<char> {
    match ev {
        ChainEvent::PollCreated(e) => "poll 0x"@ + hex_of_bytes(e.poll_hash.bytes@),
        ChainEvent::VoteCast(e) => "poll 0x"@ + hex_of_bytes(e.poll_hash.bytes@),
        ChainEvent::WithdrawCompleted(e) => "poll=0x"@ + hex_of_bytes(e.poll_hash.bytes@)
            + " voter=0x"@ + hex_of_bytes(e.voter.bytes@),
    }
}

/// The verb phrase a success message opens with, by kind.
pub open spec fn spec_success_verb(ev: ChainEvent) -> Seq<char> {
    match ev {
        ChainEvent::PollCreated(_) => "Activated "@,
        ChainEvent::VoteCast(_) => "Verified voter's credibility for "@,
        ChainEvent::WithdrawCompleted(_) => "Reported withdrawal success for "@,
    }
}

/// The message logged when an event is received from its stream.
pub open spec fn spec_receipt_msg(ev: ChainEvent) -> Seq<char> {
    match ev {
        ChainEvent::PollCreated(e) => "[VotingPollCreated] poll_hash=0x"@ + hex_of_bytes(
            e.poll_hash.bytes@,
        ) + ", version="@ + dec_of(e.version.val()),
        ChainEvent::VoteCast(e) => "[VoteSucceeded] poll_hash=0x"@ + hex_of_bytes(
            e.poll_hash.bytes@,
        ) + ", voter=0x"@ + hex_of_bytes(e.voter.bytes@) + ", selected="@ + dec_of(
            e.selected as nat,
        ) + ", voter_hash=0x"@ + hex_of_bytes(e.new_poll_voter_hash.bytes@) + ", commit_token="@
            + dec_of(e.commit_token.val()),
        ChainEvent::WithdrawCompleted(e) => "[WithdrawSucceeded] poll_hash=0x"@ + hex_of_bytes(
            e.poll_hash.bytes@,
        ) + ", voter=0x"@ + hex_of_bytes(e.voter.bytes@) + ", withdrawed_token="@ + dec_of(
            e.withdrawed_token.val(),
        ) + ", reward="@ + dec_of(e.withdrawed_reward.val()),
    }
}

/// The message logged when attempt `attempt` delivers the request.
/// From the second attempt on it reports how many retries it took.
pub open spec fn spec_success_msg(ev: ChainEvent, attempt: int) -> Seq<char> {
    spec_success_verb(ev) + spec_subject(ev) + " successfully"@ + if attempt > 1 {
        " after "@ + dec_of((attempt - 1) as nat) + " retries"@
    } else {
        Seq::<char>::empty()
    }
}

/// The message logged when an attempt gets a non-success status.
pub open spec fn spec_http_failure_msg(ev: ChainEvent, attempt: int, status: u16) -> Seq<char> {
    "Attempt "@ + dec_of(attempt as nat) + " failed for "@ + spec_subject(ev) + " - status: "@
        + dec_of(status as nat)
}

/// The message logged when an attempt cannot reach the service.
pub open spec fn spec_transport_failure_msg(ev: ChainEvent, attempt: int, error: Seq<
    char,
>) -> Seq<char> {
    "Attempt "@ + dec_of(attempt as nat) + " failed for "@ + spec_subject(ev) + ": "@ + error
}

/// The message logged when every allowed attempt has failed.
pub open spec fn spec_exhausted_msg(ev: ChainEvent) -> Seq<char> {
    "All retries failed for "@ + spec_subject(ev) + " after 3 attempts."@
}

/// Appends the subject phrase for `ev`.
fn append_subject(s: &mut String, ev: &ChainEvent)
    ensures
        final(s)@ == old(s)@ + spec_subject(*ev),
{
    match ev {
        ChainEvent::PollCreated(e) => {
            s.append("poll 0x");
            append_hex(s, &e.poll_hash.bytes);
        },
        ChainEvent::VoteCast(e) => {
            s.append("poll 0x");
            append_hex(s, &e.poll_hash.bytes);
        },
        ChainEvent::WithdrawCompleted(e) => {
            s.append("poll=0x");
            append_hex(s, &e.poll_hash.bytes);
            s.append(" voter=0x");
            append_hex(s, &e.voter.bytes);
        },
    }
    proof {
        assert(s@ =~= old(s)@ + spec_subject(*ev));
    }
}

/// Builds the receipt message for `ev`.
pub fn receipt_message(ev: &ChainEvent) -> (r: String)
    ensures
        r@ == spec_receipt_msg(*ev),
{
    let mut s = String::new();
    match ev {
        ChainEvent::PollCreated(e) => {
            s.append("[VotingPollCreated] poll_hash=0x");
            append_hex(&mut s, &e.poll_hash.bytes);
            s.append(", version=");
            append_u256_dec(&mut s, &e.version);
        },
        ChainEvent::VoteCast(e) => {
            s.append("[VoteSucceeded] poll_hash=0x");
            append_hex(&mut s, &e.poll_hash.bytes);
            s.append(", voter=0x");
            append_hex(&mut s, &e.voter.bytes);
            s.append(", selected=");
            append_u64_dec(&mut s, e.selected as u64);
            s.append(", voter_hash=0x");
            append_hex(&mut s, &e.new_poll_voter_hash.bytes);
            s.append(", commit_token=");
            append_u256_dec(&mut s, &e.commit_token);
        },
        ChainEvent::WithdrawCompleted(e) => {
            s.append("[WithdrawSucceeded] poll_hash=0x");
            append_hex(&mut s, &e.poll_hash.bytes);
            s.append(", voter=0x");
            append_hex(&mut s, &e.voter.bytes);
            s.append(", withdrawed_token=");
            append_u256_dec(&mut s, &e.withdrawed_token);
            s.append(", reward=");
            append_u256_dec(&mut s, &e.withdrawed_reward);
        },
    }
    proof {
        assert(s@ =~= spec_receipt_msg(*ev));
    }
    s
}

/// Builds the delivery-success message for attempt `attempt`.
pub fn success_message(ev: &ChainEvent, attempt: u8) -> (r: String)
    requires
        1 <= attempt,
    ensures
        r@ == spec_success_msg(*ev, attempt as int),
{
    let mut s = String::new();
    match ev {
        ChainEvent::PollCreated(_) => s.append("Activated "),
        ChainEvent::VoteCast(_) => s.append("Verified voter's credibility for "),
        ChainEvent::WithdrawCompleted(_) => s.append("Reported withdrawal success for "),
    }
    append_subject(&mut s, ev);
    s.append(" successfully");
    if attempt > 1 {
        s.append(" after ");
        append_u64_dec(&mut s, (attempt - 1) as u64);
        s.append(" retries");
    }
    proof {
        assert(s@ =~= spec_success_msg(*ev, attempt as int));
    }
    s
}

/// Builds the message for an attempt that got a non-success status.
pub fn http_failure_message(ev: &ChainEvent, attempt: u8, status: u16) -> (r: String)
    ensures
        r@ == spec_http_failure_msg(*ev, attempt as int, status),
{
    let mut s = String::new();
    s.append("Attempt ");
    append_u64_dec(&mut s, attempt as u64);
    s.append(" failed for ");
    append_subject(&mut s, ev);
    s.append(" - status: ");
    append_u64_dec(&mut s, status as u64);
    proof {
        assert(s@ =~= spec_http_failure_msg(*ev, attempt as int, status));
    }
    s
}

/// Builds the message for an attempt that could not reach the service.
pub fn transport_failure_message(ev: &ChainEvent, attempt: u8, error: &str) -> (r: String)
    ensures
        r@ == spec_transport_failure_msg(*ev, attempt as int, error@),
{
    let mut s = String::new();
    s.append("Attempt ");
    append_u64_dec(&mut s, attempt as u64);
    s.append(" failed for ");
    append_subject(&mut s, ev);
    s.append(": ");
    s.append(error);
    proof {
        assert(s@ =~= spec_transport_failure_msg(*ev, attempt as int, error@));
    }
    s
}

/// Builds the message for a request whose retries are exhausted.
pub fn exhausted_message(ev: &ChainEvent) -> (r: String)
    ensures
        r@ == spec_exhausted_msg(*ev),
{
    let mut s = String::new();
    s.append("All retries failed for ");
    append_subject(&mut s, ev);
    s.append(" after 3 attempts.");
    proof {
        assert(s@ =~= spec_exhausted_msg(*ev));
    }
    s
}

} // verus!
