//! The claim scheduler of one account: a state machine that a driver feeds
//! with what happened and that answers with what to do next.

use vstd::prelude::*;
use crate::wait::{
    eligibility_wait, parse_next_claim_time, stated_instant, text_of, time_until, window_delay,
    window_wait, FailureKind, BACKOFF_MS, FALLBACK_WAIT_MS,
};

verus! {

/// What the service says about the current claim window.
#[derive(Clone, Copy, Debug, PartialEq, Eq, Structural)]
pub struct ClaimStatus {
    /// Whether a claim would be accepted now.
    pub can_claim: bool,
    /// Milliseconds until the window opens.
    pub time_remaining: u64,
}

/// What the service says after it accepted a claim. The balance it reports
/// takes part in no decision and stays with the driver.
#[derive(Debug)]
pub struct ClaimResult {
    /// The amount that was granted.
    pub reward_amount: u32,
    /// The number of consecutive claims so far.
    pub login_streak: u32,
    /// When the next window opens, as an RFC 3339 timestamp.
    pub next_claim_time: Option<String>,
}

/// Where one account's scheduler stands.
#[derive(Clone, Copy, Debug, PartialEq, Eq, Structural)]
pub enum SchedulerState {
    /// About to ask whether a claim is possible. The initial state.
    CheckingEligibility,
    /// Sleeping until the window that the service announced opens.
    WaitingForWindow { wait_ms: u64 },
    /// About to submit the claim.
    Claiming,
    /// Sleeping after a claim until the next window.
    WaitingForNextCycle { wait_ms: u64 },
    /// Sleeping after a failure.
    Backoff,
}

/// What the driver is to do for the scheduler.
#[derive(Clone, Copy, Debug, PartialEq, Eq, Structural)]
pub enum Action {
    /// Fetch the claim status.
    FetchClaimStatus,
    /// Submit the claim.
    SubmitClaim,
    /// Sleep for so many milliseconds.
    Sleep(u64),
}

/// What the driver reports back.
#[derive(Debug)]
pub enum Event {
    /// The status was fetched.
    StatusFetched(ClaimStatus),
    /// Fetching the status failed.
    StatusFailed(FailureKind),
    /// The claim was accepted; `now` is the driver's clock at that moment,
    /// in milliseconds since the Unix epoch.
    ClaimSucceeded { result: ClaimResult, now: i64 },
    /// Submitting the claim failed.
    ClaimFailed(FailureKind),
    /// The sleep that was asked for is over.
    SleepElapsed,
}

/// What a transition gives the operator to see.
#[derive(Clone, Copy, Debug, PartialEq, Eq, Structural)]
pub enum Notice {
    /// Nothing worth a line.
    Quiet,
    /// The window is open.
    Eligible,
    /// The window opens in so many milliseconds.
    NotYetEligible { time_remaining: u64 },
    /// A claim went through; `defaulted` where the service named no usable
    /// next claim time and the fallback wait is used.
    Claimed { reward_amount: u32, login_streak: u32, wait_ms: u64, defaulted: bool },
    /// A call failed and the scheduler backs off.
    Failed(FailureKind),
}

/// The outcome of one step.
#[derive(Clone, Copy, Debug, PartialEq, Eq, Structural)]
pub struct Transition {
    /// The state after the step.
    pub next: SchedulerState,
    /// What the driver is to do now.
    pub action: Action,
    /// What to tell the operator.
    pub notice: Notice,
}

/// What a state asks of the driver.
pub open spec fn action_of(state: SchedulerState) -> Action {
    match state {
        SchedulerState::CheckingEligibility => Action::FetchClaimStatus,
        SchedulerState::WaitingForWindow { wait_ms } => Action::Sleep(wait_ms),
        SchedulerState::Claiming => Action::SubmitClaim,
        SchedulerState::WaitingForNextCycle { wait_ms } => Action::Sleep(wait_ms),
        SchedulerState::Backoff => Action::Sleep(BACKOFF_MS),
    }
}

/// Whether `event` reports the outcome of what `state` asked for.
pub open spec fn answers(state: SchedulerState, event: Event) -> bool {
    match action_of(state) {
        Action::FetchClaimStatus => event is StatusFetched || event is StatusFailed,
        Action::SubmitClaim => event is ClaimSucceeded || event is ClaimFailed,
        Action::Sleep(_) => event is SleepElapsed,
    }
}

/// The wait after a claim that the service answered with `result` at `now`.
pub open spec fn next_cycle_wait(result: ClaimResult, now: i64) -> u64 {
    window_wait(stated_instant(text_of(result.next_claim_time)), now)
}

/// The transition relation: the state after `event`, or `None` where the
/// event does not answer what the state asked for.
pub open spec fn next_state(state: SchedulerState, event: Event) -> Option<SchedulerState> {
    match (state, event) {
        (SchedulerState::CheckingEligibility, Event::StatusFetched(status)) => if status.can_claim {
            Some(SchedulerState::Claiming)
        } else {
            Some(SchedulerState::WaitingForWindow { wait_ms: window_delay(status.time_remaining) })
        },
        (SchedulerState::CheckingEligibility, Event::StatusFailed(_)) => Some(
            SchedulerState::Backoff,
        ),
        (SchedulerState::WaitingForWindow { .. }, Event::SleepElapsed) => Some(
            SchedulerState::Claiming,
        ),
        (SchedulerState::Claiming, Event::ClaimSucceeded { result, now }) => Some(
            SchedulerState::WaitingForNextCycle { wait_ms: next_cycle_wait(result, now) },
        ),
        (SchedulerState::Claiming, Event::ClaimFailed(_)) => Some(SchedulerState::Backoff),
        (SchedulerState::WaitingForNextCycle { .. }, Event::SleepElapsed) => Some(
            SchedulerState::CheckingEligibility,
        ),
        (SchedulerState::Backoff, Event::SleepElapsed) => Some(
            SchedulerState::CheckingEligibility,
        ),
        _ => None,
    }
}

/// What a transition shows the operator.
pub open spec fn notice_of(state: SchedulerState, event: Event) -> Notice {
    match (state, event) {
        (SchedulerState::CheckingEligibility, Event::StatusFetched(status)) => if status.can_claim {
            Notice::Eligible
        } else {
            Notice::NotYetEligible { time_remaining: status.time_remaining }
        },
        (SchedulerState::CheckingEligibility, Event::StatusFailed(kind)) => Notice::Failed(kind),
        (SchedulerState::Claiming, Event::ClaimSucceeded { result, now }) => Notice::Claimed {
            reward_amount: result.reward_amount,
            login_streak: result.login_streak,
            wait_ms: next_cycle_wait(result, now),
            defaulted: time_until(stated_instant(text_of(result.next_claim_time)), now).is_none(),
        },
        (SchedulerState::Claiming, Event::ClaimFailed(kind)) => Notice::Failed(kind),
        _ => Notice::Quiet,
    }
}

/// The state in which every scheduler starts.
pub fn initial_state() -> (state: SchedulerState)
    ensures
        state == SchedulerState::CheckingEligibility,
{
    SchedulerState::CheckingEligibility
}

/// What `state` asks the driver to do.
pub fn action_for(state: SchedulerState) -> (action: Action)
    ensures
        action == action_of(state),
{
    match state {
        SchedulerState::CheckingEligibility => Action::FetchClaimStatus,
        SchedulerState::WaitingForWindow { wait_ms } => Action::Sleep(wait_ms),
        SchedulerState::Claiming => Action::SubmitClaim,
        SchedulerState::WaitingForNextCycle { wait_ms } => Action::Sleep(wait_ms),
        SchedulerState::Backoff => Action::Sleep(BACKOFF_MS),
    }
}

/// The transition when the status fetch ended with `outcome`.
pub fn on_status(outcome: Result<ClaimStatus, FailureKind>) -> (next: SchedulerState)
    ensures
        outcome matches Ok(status) ==> Some(next) == next_state(
            SchedulerState::CheckingEligibility,
            Event::StatusFetched(status),
        ),
        outcome matches Err(kind) ==> next == SchedulerState::Backoff,
{
    match outcome {
        Ok(status) => {
            if status.can_claim {
                SchedulerState::Claiming
            } else {
                SchedulerState::WaitingForWindow { wait_ms: eligibility_wait(status.time_remaining) }
            }
        },
        Err(_) => SchedulerState::Backoff,
    }
}

/// One step as a whole: the next state, what it asks for and the notice;
/// `None` where `event` does not answer what `state` asked for.
pub open spec fn transition_of(state: SchedulerState, event: Event) -> Option<Transition> {
    match next_state(state, event) {
        Some(next) => Some(
            Transition { next, action: action_of(next), notice: notice_of(state, event) },
        ),
        None => None,
    }
}

/// Takes one step: `None` where `event` does not answer what `state` asked
/// for, else the next state, the action that it asks for and a notice.
pub fn step(state: SchedulerState, event: &Event) -> (taken: Option<Transition>)
    ensures
        taken == transition_of(state, *event),
        taken.is_some() == answers(state, *event),
{
    let (next, notice) = match state {
        SchedulerState::CheckingEligibility => match event {
            Event::StatusFetched(status) => {
                let notice = if status.can_claim {
                    Notice::Eligible
                } else {
                    Notice::NotYetEligible { time_remaining: status.time_remaining }
                };
                (on_status(Ok(*status)), notice)
            },
            Event::StatusFailed(kind) => (on_status(Err(*kind)), Notice::Failed(*kind)),
            _ => {
                return None;
            },
        },
        SchedulerState::Claiming => match event {
            Event::ClaimSucceeded { result, now } => {
                let left = parse_next_claim_time(&result.next_claim_time, *now);
                let wait_ms = match left {
                    Some(wait) => wait,
                    None => FALLBACK_WAIT_MS,
                };
                (
                    SchedulerState::WaitingForNextCycle { wait_ms },
                    Notice::Claimed {
                        reward_amount: result.reward_amount,
                        login_streak: result.login_streak,
                        wait_ms,
                        defaulted: left.is_none(),
                    },
                )
            },
            Event::ClaimFailed(kind) => (SchedulerState::Backoff, Notice::Failed(*kind)),
            _ => {
                return None;
            },
        },
        SchedulerState::WaitingForWindow { .. } => match event {
            Event::SleepElapsed => (SchedulerState::Claiming, Notice::Quiet),
            _ => {
                return None;
            },
        },
        SchedulerState::WaitingForNextCycle { .. } | SchedulerState::Backoff => match event {
            Event::SleepElapsed => (SchedulerState::CheckingEligibility, Notice::Quiet),
            _ => {
                return None;
            },
        },
    };
    Some(Transition { next, action: action_for(next), notice })
}

} // verus!
