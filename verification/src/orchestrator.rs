//! The orchestrator: one scheduler per configured account, none of which
//! sees another.

use vstd::prelude::*;
use crate::scheduler::{
    action_for, action_of, next_state, step, transition_of, Action, Event, SchedulerState,
    Transition,
};
use crate::trace::run;

verus! {

/// The credentials of one configured account.
#[derive(Debug)]
pub struct AccountCredential {
    /// The name under which the account appears in notices.
    pub display_name: String,
    /// The bearer token of the account.
    pub api_key: String,
    /// The session cookie, where the account has one.
    pub session_cookie: Option<String>,
}

/// The schedulers of all accounts, each bound to its credential.
pub struct Fleet {
    accounts: Vec<AccountCredential>,
    states: Vec<SchedulerState>,
}

/// The state of every scheduler right after launch.
pub open spec fn all_checking(count: nat) -> Seq<SchedulerState> {
    Seq::new(count, |i: int| SchedulerState::CheckingEligibility)
}

/// The states after `event` was delivered to the scheduler of `account`:
/// that scheduler steps, every other one stays; `None` where there is no
/// such account or its scheduler does not accept the event.
pub open spec fn deliver(states: Seq<SchedulerState>, account: int, event: Event) -> Option<
    Seq<SchedulerState>,
> {
    if 0 <= account < states.len() {
        match next_state(states[account], event) {
            Some(next) => Some(states.update(account, next)),
            None => None,
        }
    } else {
        None
    }
}

/// The states after a sequence of deliveries, each an account and an event.
pub open spec fn deliver_all(states: Seq<SchedulerState>, deliveries: Seq<(int, Event)>) -> Option<
    Seq<SchedulerState>,
>
    decreases deliveries.len(),
{
    if deliveries.len() == 0 {
        Some(states)
    } else {
        match deliver(states, deliveries[0].0, deliveries[0].1) {
            Some(next) => deliver_all(next, deliveries.drop_first()),
            None => None,
        }
    }
}

/// The events that `deliveries` holds for `account`, in their order.
pub open spec fn events_for(deliveries: Seq<(int, Event)>, account: int) -> Seq<Event>
    decreases deliveries.len(),
{
    if deliveries.len() == 0 {
        Seq::empty()
    } else if deliveries[0].0 == account {
        seq![deliveries[0].1] + events_for(deliveries.drop_first(), account)
    } else {
        events_for(deliveries.drop_first(), account)
    }
}

/// Isolation: whatever is delivered to the other accounts, and in whatever
/// interleaving, each scheduler ends where its own events alone take it.
pub proof fn law_accounts_are_isolated(
    states: Seq<SchedulerState>,
    deliveries: Seq<(int, Event)>,
    account: int,
)
    requires
        0 <= account < states.len(),
    ensures
        deliver_all(states, deliveries) matches Some(reached) ==> reached.len() == states.len()
            && Some(reached[account]) == run(states[account], events_for(deliveries, account)),
    decreases deliveries.len(),
{
    if deliveries.len() > 0 {
        let to = deliveries[0].0;
        let event = deliveries[0].1;
        match deliver(states, to, event) {
            Some(next) => {
                law_accounts_are_isolated(next, deliveries.drop_first(), account);
                if to == account {
                    let own = events_for(deliveries, account);
                    assert(own[0] == event);
                    assert(own.drop_first() =~= events_for(deliveries.drop_first(), account));
                }
            },
            None => {},
        }
    }
}

impl Fleet {
    /// The state of each scheduler, by account.
    pub closed spec fn view(&self) -> Seq<SchedulerState> {
        self.states@
    }

    /// The credentials, by account.
    pub closed spec fn credentials(&self) -> Seq<AccountCredential> {
        self.accounts@
    }

    /// Binds one scheduler to each credential, in the order given, each at
    /// its initial state.
    pub fn launch(accounts: Vec<AccountCredential>) -> (fleet: Fleet)
        ensures
            fleet.credentials() == accounts@,
            fleet@ == all_checking(accounts@.len()),
    {
        let mut states: Vec<SchedulerState> = Vec::new();
        let mut i: usize = 0;
        while i < accounts.len()
            invariant
                i <= accounts.len(),
                states@ == all_checking(i as nat),
            decreases accounts.len() - i,
        {
            states.push(SchedulerState::CheckingEligibility);
            i += 1;
            assert(states@ =~= all_checking(i as nat));
        }
        Fleet { accounts, states }
    }

    /// The number of schedulers, one for each account that was launched.
    pub fn len(&self) -> (count: usize)
        ensures
            count == self@.len(),
    {
        self.states.len()
    }

    /// The credential of `account`, if there is such an account.
    pub fn credential(&self, account: usize) -> (found: Option<&AccountCredential>)
        ensures
            account < self.credentials().len() ==> found == Some(
                &self.credentials()[account as int],
            ),
            account >= self.credentials().len() ==> found.is_none(),
    {
        if account < self.accounts.len() {
            Some(&self.accounts[account])
        } else {
            None
        }
    }

    /// The state of the scheduler of `account`, if there is such an account.
    pub fn state(&self, account: usize) -> (found: Option<SchedulerState>)
        ensures
            account < self@.len() ==> found == Some(self@[account as int]),
            account >= self@.len() ==> found.is_none(),
    {
        if account < self.states.len() {
            Some(self.states[account])
        } else {
            None
        }
    }

    /// What the scheduler of `account` asks for as it stands.
    pub fn pending_action(&self, account: usize) -> (pending: Option<Action>)
        ensures
            account < self@.len() ==> pending == Some(action_of(self@[account as int])),
            account >= self@.len() ==> pending.is_none(),
    {
        if account < self.states.len() {
            Some(action_for(self.states[account]))
        } else {
            None
        }
    }

    /// Delivers `event` to the scheduler of `account`. That scheduler takes
    /// one step and says what to do next; no other scheduler is touched.
    /// `None`, and nothing changed, where there is no such account or its
    /// scheduler did not ask for what the event reports.
    pub fn dispatch(&mut self, account: usize, event: &Event) -> (taken: Option<Transition>)
        ensures
            final(self).credentials() == old(self).credentials(),
            taken == (if account < old(self)@.len() {
                transition_of(old(self)@[account as int], *event)
            } else {
                None
            }),
            final(self)@ == (match deliver(old(self)@, account as int, *event) {
                Some(stepped) => stepped,
                None => old(self)@,
            }),
            taken.is_some() == deliver(old(self)@, account as int, *event).is_some(),
            forall|other: int|
                0 <= other < old(self)@.len() && other != account ==> final(self)@[other] == old(
                    self,
                )@[other],
    {
        if account >= self.states.len() {
            return None;
        }
        let taken = step(self.states[account], event);
        match taken {
            Some(t) => {
                self.states.set(account, t.next);
            },
            None => {},
        }
        taken
    }
}

} // verus!
