//! How long to wait: the window calculator, the backoff policy and the
//! human-readable rendering of a wait.

use vstd::prelude::*;
use vstd::string::*;
use crate::decimal::{
    decimal, is_digit, lemma_decimal_digits, lemma_decimal_round_trip, numeral_value,
    push_decimal,
};

verus! {

/// Grace added to the remaining time that the service reports, in milliseconds.
pub const GRACE_MS: u64 = 5_000;

/// The fixed delay after any failure, in milliseconds.
pub const BACKOFF_MS: u64 = 60_000;

/// The wait used when the service names no usable next claim time:
/// twelve hours and one minute, in milliseconds.
pub const FALLBACK_WAIT_MS: u64 = 43_260_000;

/// Why a call to the remote service failed.
#[derive(Clone, Copy, Debug, PartialEq, Eq, Structural)]
pub enum FailureKind {
    /// The service could not be reached.
    Transport,
    /// The service refused the credentials.
    Auth,
    /// The response did not have the expected shape.
    Decode,
}

/// The instant, in milliseconds since the Unix epoch, that `text` denotes as
/// an RFC 3339 date and time; `None` where `text` is no such date and time.
pub uninterp spec fn rfc3339_millis(text: Seq<char>) -> Option<i64>;

/// Calls `chrono::DateTime::parse_from_rfc3339` and, where it accepts the
/// text, reads the instant with `DateTime::timestamp_millis`. Trusted: the
/// outcome depends on the text alone, so it is the named instant of the text.
#[verifier::external_body]
fn parse_rfc3339_millis(text: &str) -> (instant: Option<i64>)
    ensures
        instant == rfc3339_millis(text@),
{
    match chrono::DateTime::parse_from_rfc3339(text) {
        Ok(at) => Some(at.timestamp_millis()),
        Err(_) => None,
    }
}

/// The time left from `now` until `instant`, where `instant` is known and
/// still ahead.
pub open spec fn time_until(instant: Option<i64>, now: i64) -> Option<u64> {
    match instant {
        Some(at) => if at > now {
            Some((at - now) as u64)
        } else {
            None
        },
        None => None,
    }
}

/// The instant that an optional timestamp text denotes.
pub open spec fn stated_instant(text: Option<Seq<char>>) -> Option<i64> {
    match text {
        Some(t) => rfc3339_millis(t),
        None => None,
    }
}

/// The wait until the next claim window: the time until `instant`, or the
/// fallback where there is none ahead.
pub open spec fn window_wait(instant: Option<i64>, now: i64) -> u64 {
    match time_until(instant, now) {
        Some(wait) => wait,
        None => FALLBACK_WAIT_MS,
    }
}

/// The view of an optional string.
pub open spec fn text_of(text: Option<String>) -> Option<Seq<char>> {
    match text {
        Some(t) => Some(t@),
        None => None,
    }
}

/// Milliseconds from `now` until `instant`, if `instant` is given and lies
/// strictly after `now`. Both are milliseconds since the Unix epoch.
pub fn remaining_until(instant: Option<i64>, now: i64) -> (left: Option<u64>)
    ensures
        left == time_until(instant, now),
        left matches Some(wait) ==> wait > 0,
{
    match instant {
        Some(at) => {
            if at > now {
                let span: i128 = at as i128 - now as i128;
                Some(span as u64)
            } else {
                None
            }
        },
        None => None,
    }
}

/// The wait that a server-supplied next claim time asks for, seen from `now`
/// (milliseconds since the Unix epoch): `None` where the time is absent, is
/// no RFC 3339 timestamp, or is not after `now`.
pub fn parse_next_claim_time(next_claim_time: &Option<String>, now: i64) -> (wait: Option<u64>)
    ensures
        wait == time_until(stated_instant(text_of(*next_claim_time)), now),
{
    match next_claim_time {
        Some(text) => remaining_until(parse_rfc3339_millis(text.as_str()), now),
        None => None,
    }
}

/// The window calculator on a parsed instant: the time until it, or the
/// fallback where it is absent or not after `now`.
pub fn wait_for_instant(instant: Option<i64>, now: i64) -> (wait: u64)
    ensures
        wait == window_wait(instant, now),
        instant matches Some(at) ==> (at > now ==> wait == at - now),
        instant.is_none() ==> wait == FALLBACK_WAIT_MS,
        instant matches Some(at) ==> (at <= now ==> wait == FALLBACK_WAIT_MS),
        wait > 0,
{
    match remaining_until(instant, now) {
        Some(wait) => wait,
        None => FALLBACK_WAIT_MS,
    }
}

/// The window calculator: how long to wait, from `now`, for the next claim
/// window that the service announced as `next_claim_time`.
pub fn compute_wait(next_claim_time: &Option<String>, now: i64) -> (wait: u64)
    ensures
        wait == window_wait(stated_instant(text_of(*next_claim_time)), now),
        next_claim_time.is_none() ==> wait == FALLBACK_WAIT_MS,
        wait > 0,
{
    match parse_next_claim_time(next_claim_time, now) {
        Some(wait) => wait,
        None => FALLBACK_WAIT_MS,
    }
}

/// The wait before claiming when the service reports `time_remaining`
/// milliseconds to go: that plus the grace, held at the largest `u64`.
pub open spec fn window_delay(time_remaining: u64) -> u64 {
    if time_remaining + GRACE_MS <= u64::MAX {
        (time_remaining + GRACE_MS) as u64
    } else {
        u64::MAX
    }
}

/// The wait before claiming when the service reports `time_remaining`
/// milliseconds until the window opens.
pub fn eligibility_wait(time_remaining: u64) -> (wait: u64)
    ensures
        wait == window_delay(time_remaining),
        wait >= GRACE_MS,
        wait >= time_remaining,
{
    if time_remaining <= u64::MAX - GRACE_MS {
        time_remaining + GRACE_MS
    } else {
        u64::MAX
    }
}

/// The backoff policy: the same delay for every kind of failure.
pub fn backoff_delay(failure: FailureKind) -> (wait: u64)
    ensures
        wait == BACKOFF_MS,
{
    BACKOFF_MS
}

/// The whole hours in a wait of `ms` milliseconds.
pub open spec fn wait_hours(ms: nat) -> nat {
    ms / 3_600_000
}

/// The whole minutes left in a wait of `ms` milliseconds beyond its hours.
pub open spec fn wait_minutes(ms: nat) -> nat {
    (ms / 60_000) % 60
}

/// A wait as people read it: hours and minutes, a zero part left out unless
/// both are zero.
pub open spec fn format_wait(ms: nat) -> Seq<char> {
    let hours = wait_hours(ms);
    let minutes = wait_minutes(ms);
    if hours == 0 {
        decimal(minutes).push('m')
    } else if minutes == 0 {
        decimal(hours).push('h')
    } else {
        decimal(hours) + seq!['h', ' '] + decimal(minutes).push('m')
    }
}

/// Seconds and milliseconds split a wait into the same hours and minutes.
proof fn lemma_split_by_seconds(ms: nat)
    ensures
        (ms / 1000) / 3600 == wait_hours(ms),
        ((ms / 1000) % 3600) / 60 == wait_minutes(ms),
{
    let secs = ms / 1000;
    let mins = secs / 60;
    assert(secs / 3600 == ms / 3_600_000) by (nonlinear_arith)
        requires
            secs == ms / 1000,
    ;
    assert(mins == ms / 60_000) by (nonlinear_arith)
        requires
            secs == ms / 1000,
            mins == secs / 60,
    ;
    assert((secs % 3600) / 60 == mins % 60) by (nonlinear_arith)
        requires
            mins == secs / 60,
    ;
}

/// Renders a wait of `ms` milliseconds as hours and minutes: "0m", "59m",
/// "2h", "2h 5m". Seconds and below are dropped.
pub fn format_wait_time(ms: u64) -> (text: String)
    ensures
        text@ == format_wait(ms as nat),
{
    let total_seconds: u64 = ms / 1000;
    let hours: u64 = total_seconds / 3600;
    let minutes: u64 = (total_seconds % 3600) / 60;
    proof {
        lemma_split_by_seconds(ms as nat);
        reveal_strlit("m");
        reveal_strlit("h");
        reveal_strlit("h ");
    }
    let mut text = String::new();
    if hours == 0 {
        push_decimal(&mut text, minutes);
        text.append("m");
        assert(text@ =~= decimal(minutes as nat).push('m'));
    } else if minutes == 0 {
        push_decimal(&mut text, hours);
        text.append("h");
        assert(text@ =~= decimal(hours as nat).push('h'));
    } else {
        push_decimal(&mut text, hours);
        text.append("h ");
        push_decimal(&mut text, minutes);
        text.append("m");
        assert("h "@ =~= seq!['h', ' ']);
        assert(text@ =~= decimal(hours as nat) + seq!['h', ' '] + decimal(minutes as nat).push(
            'm',
        ));
    }
    text
}

/// Tells the operator that the window is still closed for `time_remaining`
/// milliseconds.
pub fn waiting_message(time_remaining: u64) -> (text: String)
    ensures
        text@ == "Cannot claim yet. Waiting "@ + format_wait(time_remaining as nat) + "..."@,
{
    let mut text = "Cannot claim yet. Waiting ".to_owned();
    text.append(format_wait_time(time_remaining).as_str());
    text.append("...");
    text
}

/// Tells the operator how long the scheduler sleeps until the next window.
pub fn sleep_message(wait_ms: u64) -> (text: String)
    ensures
        text@ == "Will sleep "@ + format_wait(wait_ms as nat),
{
    let mut text = "Will sleep ".to_owned();
    text.append(format_wait_time(wait_ms).as_str());
    text
}

/// The total of minutes that a rendered wait states: sixty for each hour
/// before an `h`, and the minutes before the closing `m`.
pub open spec fn implied_minutes(text: Seq<char>) -> nat {
    if text.contains('h') {
        let at = text.index_of('h');
        let hours = numeral_value(text.subrange(0, at));
        if at + 1 == text.len() {
            hours * 60
        } else {
            hours * 60 + numeral_value(text.subrange(at + 2, text.len() - 1))
        }
    } else {
        numeral_value(text.drop_last())
    }
}

/// Hours and minutes of a wait add up to its whole minutes.
pub proof fn lemma_hours_and_minutes(ms: nat)
    ensures
        wait_hours(ms) * 60 + wait_minutes(ms) == ms / 60_000,
        wait_minutes(ms) < 60,
{
    let whole = ms / 60_000;
    assert(whole / 60 == ms / 3_600_000) by (nonlinear_arith)
        requires
            whole == ms / 60_000,
    ;
    assert((whole / 60) * 60 + whole % 60 == whole) by (nonlinear_arith);
}

/// A rendered wait states the whole minutes of the wait, rounded down. It
/// names hours exactly where there are any, and minutes exactly where there
/// are any or there are no hours.
pub proof fn law_format_states_whole_minutes(ms: nat)
    ensures
        implied_minutes(format_wait(ms)) == ms / 60_000,
        format_wait(ms).contains('h') <==> wait_hours(ms) > 0,
        format_wait(ms).last() == 'm' <==> (wait_minutes(ms) > 0 || wait_hours(ms) == 0),
{
    let hours = wait_hours(ms);
    let minutes = wait_minutes(ms);
    let text = format_wait(ms);
    let h = decimal(hours);
    let m = decimal(minutes);
    let split = h.len() as int;
    lemma_hours_and_minutes(ms);
    lemma_decimal_digits(hours);
    lemma_decimal_digits(minutes);
    lemma_decimal_round_trip(hours);
    lemma_decimal_round_trip(minutes);
    assert(forall|i: int| 0 <= i < h.len() ==> is_digit(#[trigger] h[i]));
    assert(forall|i: int| 0 <= i < m.len() ==> is_digit(#[trigger] m[i]));
    if hours == 0 {
        assert(text =~= m.push('m'));
        assert(forall|i: int| 0 <= i < text.len() ==> text[i] != 'h') by {
            assert forall|i: int| 0 <= i < text.len() implies text[i] != 'h' by {
                if i < m.len() {
                    assert(is_digit(m[i]));
                }
            }
        }
        assert(text.drop_last() =~= m);
    } else if minutes == 0 {
        assert(text =~= h.push('h'));
        let at = text.index_of('h');
        assert(text[split] == 'h');
        assert(text.contains('h'));
        assert(at == split) by {
            if at < split {
                assert(is_digit(h[at]));
            }
        }
        assert(text.subrange(0, at) =~= h);
    } else {
        assert(text =~= h + seq!['h', ' '] + m.push('m'));
        let at = text.index_of('h');
        assert(text[split] == 'h');
        assert(text.contains('h'));
        assert(text[split + 1] == ' ');
        assert(text[text.len() - 1] == 'm');
        assert forall|i: int| split + 2 <= i < text.len() - 1 implies text[i] == m[i - split
            - 2] by {}
        assert(at == split) by {
            if at < split {
                assert(is_digit(h[at]));
            } else if at > split + 1 && at < text.len() - 1 {
                assert(is_digit(m[at - split - 2]));
            }
        }
        assert(text.subrange(0, at) =~= h);
        assert(text.subrange(at + 2, text.len() - 1) =~= m);
    }
}

/// The window calculator keeps no state: the same announcement read at the
/// same instant gives the same wait, however often it is asked.
pub proof fn law_wait_is_replayable(
    next_claim_time: Option<Seq<char>>,
    now: i64,
    first: u64,
    second: u64,
)
    requires
        first == window_wait(stated_instant(next_claim_time), now),
        second == window_wait(stated_instant(next_claim_time), now),
    ensures
        first == second,
{
}

/// The window calculator never gives a wait of nothing: an instant ahead is
/// waited for exactly, and every other announcement gives the fallback.
pub proof fn law_wait_is_positive(instant: Option<i64>, now: i64)
    ensures
        window_wait(instant, now) > 0,
        instant matches Some(at) ==> (at > now ==> window_wait(instant, now) == at - now),
        instant matches Some(at) ==> (at <= now ==> window_wait(instant, now)
            == FALLBACK_WAIT_MS),
        instant.is_none() ==> window_wait(instant, now) == FALLBACK_WAIT_MS,
{
}

} // verus!
