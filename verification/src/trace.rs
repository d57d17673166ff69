//! Runs of a scheduler over a sequence of events, and what holds of every run.

use vstd::prelude::*;
use crate::scheduler::{action_of, answers, next_state, Action, ClaimStatus, Event, SchedulerState};
use crate::wait::{window_delay, FailureKind, BACKOFF_MS, GRACE_MS};

verus! {

/// The state after the events of `events` in turn; `None` where one of them
/// does not answer what the scheduler asked for.
pub open spec fn run(state: SchedulerState, events: Seq<Event>) -> Option<SchedulerState>
    decreases events.len(),
{
    if events.len() == 0 {
        Some(state)
    } else {
        match next_state(state, events[0]) {
            Some(next) => run(next, events.drop_first()),
            None => None,
        }
    }
}

/// The sleep that `event` completes in `state`, in milliseconds.
pub open spec fn sleep_done(state: SchedulerState, event: Event) -> nat {
    match (action_of(state), event) {
        (Action::Sleep(wait_ms), Event::SleepElapsed) => wait_ms as nat,
        _ => 0,
    }
}

/// The time slept over a run, in milliseconds.
pub open spec fn slept(state: SchedulerState, events: Seq<Event>) -> nat
    decreases events.len(),
{
    if events.len() == 0 {
        0
    } else {
        match next_state(state, events[0]) {
            Some(next) => sleep_done(state, events[0]) + slept(next, events.drop_first()),
            None => 0,
        }
    }
}

/// The number of claims submitted over a run.
pub open spec fn claims_submitted(state: SchedulerState, events: Seq<Event>) -> nat
    decreases events.len(),
{
    if events.len() == 0 {
        0
    } else {
        match next_state(state, events[0]) {
            Some(next) => (if action_of(state) == Action::SubmitClaim {
                1nat
            } else {
                0nat
            }) + claims_submitted(next, events.drop_first()),
            None => 0,
        }
    }
}

/// A run over two stretches of events is the run over the second from where
/// the first ended, and its sleeps and claims add up.
pub proof fn lemma_run_concat(state: SchedulerState, first: Seq<Event>, second: Seq<Event>)
    ensures
        run(state, first + second) == match run(state, first) {
            Some(middle) => run(middle, second),
            None => None,
        },
        run(state, first) matches Some(middle) ==> slept(state, first + second) == slept(
            state,
            first,
        ) + slept(middle, second) && claims_submitted(state, first + second) == claims_submitted(
            state,
            first,
        ) + claims_submitted(middle, second),
    decreases first.len(),
{
    if first.len() == 0 {
        assert(first + second =~= second);
    } else {
        let all = first + second;
        assert(all[0] == first[0]);
        assert(all.drop_first() =~= first.drop_first() + second);
        match next_state(state, first[0]) {
            Some(next) => {
                lemma_run_concat(next, first.drop_first(), second);
            },
            None => {},
        }
    }
}

/// No state is final: in every state some event is accepted, and an event is
/// accepted exactly where it answers what the state asked for.
pub proof fn law_never_terminal(state: SchedulerState)
    ensures
        exists|event: Event| (#[trigger] next_state(state, event)).is_some(),
        forall|event: Event| (#[trigger] next_state(state, event)).is_some() == answers(state, event),
{
    match state {
        SchedulerState::CheckingEligibility => {
            assert(next_state(state, Event::StatusFailed(FailureKind::Transport)).is_some());
        },
        SchedulerState::Claiming => {
            assert(next_state(state, Event::ClaimFailed(FailureKind::Transport)).is_some());
        },
        _ => {
            assert(next_state(state, Event::SleepElapsed).is_some());
        },
    }
}

/// After the service said that the window opens in `time_remaining`
/// milliseconds, no run reaches the point of submitting a claim before it has
/// slept that long and the grace on top.
pub proof fn law_claim_waits_for_window(time_remaining: u64, rest: Seq<Event>)
    ensures
        ({
            let told = Event::StatusFetched(ClaimStatus { can_claim: false, time_remaining });
            let events = seq![told] + rest;
            run(SchedulerState::CheckingEligibility, events) matches Some(reached) ==> (action_of(
                reached,
            ) == Action::SubmitClaim || claims_submitted(
                SchedulerState::CheckingEligibility,
                events,
            ) > 0) ==> slept(SchedulerState::CheckingEligibility, events) >= window_delay(
                time_remaining,
            )
        }),
        window_delay(time_remaining) >= time_remaining,
        time_remaining + GRACE_MS <= u64::MAX ==> window_delay(time_remaining) == time_remaining
            + GRACE_MS,
{
    let start = SchedulerState::CheckingEligibility;
    let told = Event::StatusFetched(ClaimStatus { can_claim: false, time_remaining });
    let events = seq![told] + rest;
    let waiting = SchedulerState::WaitingForWindow { wait_ms: window_delay(time_remaining) };
    assert(events[0] == told);
    assert(events.drop_first() =~= rest);
    assert(next_state(start, told) == Some(waiting));
    assert(run(start, events) == run(waiting, rest));
    assert(slept(start, events) == slept(waiting, rest));
    assert(claims_submitted(start, events) == claims_submitted(waiting, rest));
    if rest.len() > 0 {
        if next_state(waiting, rest[0]).is_some() {
            assert(rest[0] is SleepElapsed);
            assert(sleep_done(waiting, rest[0]) == window_delay(time_remaining));
        }
    }
}

/// The events of rounds in which the window is open and the claim fails, one
/// round for each failure of `kinds`.
pub open spec fn failing_rounds(kinds: Seq<FailureKind>) -> Seq<Event>
    decreases kinds.len(),
{
    if kinds.len() == 0 {
        Seq::empty()
    } else {
        seq![
            Event::StatusFetched(ClaimStatus { can_claim: true, time_remaining: 0 }),
            Event::ClaimFailed(kinds[0]),
            Event::SleepElapsed,
        ] + failing_rounds(kinds.drop_first())
    }
}

/// Where every claim fails, the scheduler goes on for as many rounds as
/// there are: each failure, of whatever kind, costs one backoff, one claim is
/// submitted per round, and the scheduler is back at checking eligibility.
pub proof fn law_backoff_persists(kinds: Seq<FailureKind>)
    ensures
        run(SchedulerState::CheckingEligibility, failing_rounds(kinds)) == Some(
            SchedulerState::CheckingEligibility,
        ),
        slept(SchedulerState::CheckingEligibility, failing_rounds(kinds)) == kinds.len()
            * BACKOFF_MS,
        claims_submitted(SchedulerState::CheckingEligibility, failing_rounds(kinds))
            == kinds.len(),
    decreases kinds.len(),
{
    let start = SchedulerState::CheckingEligibility;
    if kinds.len() > 0 {
        let open = Event::StatusFetched(ClaimStatus { can_claim: true, time_remaining: 0 });
        let failed = Event::ClaimFailed(kinds[0]);
        let round = seq![open, failed, Event::SleepElapsed];
        let tail = failing_rounds(kinds.drop_first());
        law_backoff_persists(kinds.drop_first());
        lemma_round_fails(kinds[0]);
        lemma_run_concat(start, round, tail);
        assert(kinds.len() * BACKOFF_MS == BACKOFF_MS + (kinds.len() - 1) * BACKOFF_MS)
            by (nonlinear_arith);
    }
}

/// One round with a failing claim: back at the start after one backoff.
proof fn lemma_round_fails(kind: FailureKind)
    ensures
        ({
            let round = seq![
                Event::StatusFetched(ClaimStatus { can_claim: true, time_remaining: 0 }),
                Event::ClaimFailed(kind),
                Event::SleepElapsed,
            ];
            &&& run(SchedulerState::CheckingEligibility, round) == Some(
                SchedulerState::CheckingEligibility,
            )
            &&& slept(SchedulerState::CheckingEligibility, round) == BACKOFF_MS
            &&& claims_submitted(SchedulerState::CheckingEligibility, round) == 1
        }),
{
    let start = SchedulerState::CheckingEligibility;
    let open = Event::StatusFetched(ClaimStatus { can_claim: true, time_remaining: 0 });
    let failed = Event::ClaimFailed(kind);
    let round = seq![open, failed, Event::SleepElapsed];
    let after_open = round.drop_first();
    let after_failed = after_open.drop_first();
    assert(round[0] == open);
    assert(after_open[0] == failed);
    assert(after_failed[0] == Event::SleepElapsed);
    assert(after_failed.drop_first().len() == 0);
    assert(next_state(start, open) == Some(SchedulerState::Claiming));
    assert(next_state(SchedulerState::Claiming, failed) == Some(SchedulerState::Backoff));
    assert(next_state(SchedulerState::Backoff, Event::SleepElapsed) == Some(start));
    assert(run(start, after_failed.drop_first()) == Some(start));
    assert(run(SchedulerState::Backoff, after_failed) == Some(start));
    assert(run(SchedulerState::Claiming, after_open) == Some(start));
    assert(slept(start, after_failed.drop_first()) == 0);
    assert(slept(SchedulerState::Backoff, after_failed) == BACKOFF_MS);
    assert(slept(SchedulerState::Claiming, after_open) == BACKOFF_MS);
    assert(claims_submitted(start, after_failed.drop_first()) == 0);
    assert(claims_submitted(SchedulerState::Backoff, after_failed) == 0);
    assert(claims_submitted(SchedulerState::Claiming, after_open) == 1);
}

} // verus!
