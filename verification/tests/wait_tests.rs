use rusplay::decimal::{push_decimal, to_decimal};
use rusplay::wait::{
    backoff_delay, compute_wait, eligibility_wait, format_wait_time, parse_next_claim_time,
    remaining_until, sleep_message, wait_for_instant, waiting_message, FailureKind, BACKOFF_MS,
    FALLBACK_WAIT_MS, GRACE_MS,
};

const MINUTE: u64 = 60_000;
const HOUR: u64 = 60 * MINUTE;
/// 2025-06-24T16:18:51.278Z in milliseconds since the epoch.
const JUNE_24: i64 = 1_750_781_931_278;

#[test]
fn decimal_of_small_and_large_numbers() {
    assert_eq!(to_decimal(0), "0");
    assert_eq!(to_decimal(7), "7");
    assert_eq!(to_decimal(10), "10");
    assert_eq!(to_decimal(1_234_567_890), "1234567890");
    assert_eq!(to_decimal(u64::MAX), "18446744073709551615");
}

#[test]
fn push_decimal_appends_to_what_is_there() {
    let mut text = String::from("n=");
    push_decimal(&mut text, 405);
    assert_eq!(text, "n=405");
}

#[test]
fn format_zero_is_zero_minutes() {
    assert_eq!(format_wait_time(0), "0m");
}

#[test]
fn format_fifty_nine_minutes() {
    assert_eq!(format_wait_time(59 * MINUTE), "59m");
}

#[test]
fn format_exactly_two_hours() {
    assert_eq!(format_wait_time(2 * HOUR), "2h");
}

#[test]
fn format_two_hours_five_minutes() {
    assert_eq!(format_wait_time(2 * HOUR + 5 * MINUTE), "2h 5m");
}

#[test]
fn format_drops_seconds_and_below() {
    assert_eq!(format_wait_time(59_999), "0m");
    assert_eq!(format_wait_time(MINUTE), "1m");
    assert_eq!(format_wait_time(HOUR - 1), "59m");
    assert_eq!(format_wait_time(HOUR), "1h");
    assert_eq!(format_wait_time(HOUR + MINUTE - 1), "1h");
    assert_eq!(format_wait_time(FALLBACK_WAIT_MS), "12h 1m");
}

#[test]
fn format_the_longest_wait() {
    assert_eq!(format_wait_time(u64::MAX), "5124095576030h 25m");
}

#[test]
fn format_states_whole_minutes_on_a_sweep() {
    for ms in (0..200 * HOUR).step_by(7_001_003) {
        let text = format_wait_time(ms);
        let mut total: u64 = 0;
        for part in text.split(' ') {
            let (number, unit) = part.split_at(part.len() - 1);
            let number: u64 = number.parse().unwrap();
            assert!(number > 0 || text == "0m");
            total += match unit {
                "h" => number * 60,
                "m" => number,
                _ => panic!("unit {unit}"),
            };
        }
        assert_eq!(total, ms / MINUTE);
    }
}

#[test]
fn constants_are_what_the_rules_say() {
    assert_eq!(GRACE_MS, 5_000);
    assert_eq!(BACKOFF_MS, 60_000);
    assert_eq!(FALLBACK_WAIT_MS, (12 * 60 + 1) * 60 * 1000);
}

#[test]
fn future_timestamp_is_waited_for() {
    let now = JUNE_24 - 10_000;
    let next = Some(String::from("2025-06-24T16:18:51.278Z"));
    assert_eq!(compute_wait(&next, now), 10_000);
    assert_eq!(parse_next_claim_time(&next, now), Some(10_000));
}

#[test]
fn past_timestamp_gives_the_fallback() {
    let now = JUNE_24 + 10_000;
    let next = Some(String::from("2025-06-24T16:18:51.278Z"));
    assert_eq!(compute_wait(&next, now), FALLBACK_WAIT_MS);
    assert_eq!(parse_next_claim_time(&next, now), None);
}

#[test]
fn present_timestamp_gives_the_fallback() {
    let next = Some(String::from("2025-06-24T16:18:51.278Z"));
    assert_eq!(compute_wait(&next, JUNE_24), FALLBACK_WAIT_MS);
    assert_eq!(compute_wait(&next, JUNE_24 - 1), 1);
}

#[test]
fn absent_timestamp_gives_the_fallback() {
    assert_eq!(compute_wait(&None, JUNE_24), 43_260_000);
    assert_eq!(parse_next_claim_time(&None, JUNE_24), None);
}

#[test]
fn unreadable_timestamp_gives_the_fallback() {
    for text in ["", "tomorrow", "2025-06-24", "2025-06-24 16:18:51", "1750781931278"] {
        let next = Some(String::from(text));
        assert_eq!(compute_wait(&next, 0), FALLBACK_WAIT_MS, "{text}");
        assert_eq!(parse_next_claim_time(&next, 0), None, "{text}");
    }
}

#[test]
fn timestamp_with_an_offset_is_read_as_an_instant() {
    let next = Some(String::from("1996-12-19T16:39:57-08:00"));
    assert_eq!(parse_next_claim_time(&next, 0), Some(851_042_397_000));
    assert_eq!(parse_next_claim_time(&next, 851_042_397_000 - 250), Some(250));
    let same = Some(String::from("1996-12-20T00:39:57Z"));
    assert_eq!(parse_next_claim_time(&same, 0), Some(851_042_397_000));
}

#[test]
fn replay_gives_the_same_wait() {
    let next = Some(String::from("2025-07-25T10:39:19.612Z"));
    let first = compute_wait(&next, JUNE_24);
    let second = compute_wait(&next, JUNE_24);
    assert_eq!(first, second);
    assert_eq!(first, (1_753_439_959_612i64 - JUNE_24) as u64);
}

#[test]
fn remaining_until_covers_the_whole_range() {
    assert_eq!(remaining_until(Some(5), 3), Some(2));
    assert_eq!(remaining_until(Some(3), 3), None);
    assert_eq!(remaining_until(Some(2), 3), None);
    assert_eq!(remaining_until(None, 3), None);
    assert_eq!(remaining_until(Some(i64::MAX), i64::MIN), Some(u64::MAX));
    assert_eq!(remaining_until(Some(0), i64::MIN), Some(1u64 << 63));
}

#[test]
fn wait_for_instant_falls_back() {
    assert_eq!(wait_for_instant(Some(10_000), 0), 10_000);
    assert_eq!(wait_for_instant(Some(-10_000), 0), FALLBACK_WAIT_MS);
    assert_eq!(wait_for_instant(None, 0), FALLBACK_WAIT_MS);
}

#[test]
fn eligibility_wait_adds_the_grace() {
    assert_eq!(eligibility_wait(1000), 6000);
    assert_eq!(eligibility_wait(0), 5000);
    assert_eq!(eligibility_wait(u64::MAX - 5000), u64::MAX);
    assert_eq!(eligibility_wait(u64::MAX - 4999), u64::MAX);
    assert_eq!(eligibility_wait(u64::MAX), u64::MAX);
}

#[test]
fn backoff_is_the_same_for_every_failure() {
    assert_eq!(backoff_delay(FailureKind::Transport), 60_000);
    assert_eq!(backoff_delay(FailureKind::Auth), 60_000);
    assert_eq!(backoff_delay(FailureKind::Decode), 60_000);
}

#[test]
fn messages_carry_the_rendered_wait() {
    assert_eq!(waiting_message(2 * HOUR + 5 * MINUTE), "Cannot claim yet. Waiting 2h 5m...");
    assert_eq!(sleep_message(FALLBACK_WAIT_MS), "Will sleep 12h 1m");
}
