//! The shapes of what the service sends and takes, as far as they hold no
//! fractional amounts.

use vstd::prelude::*;
use vstd::string::*;
use vstd::std_specs::convert::TryFromSpecImpl;
use crate::scheduler::ClaimStatus;

verus! {

/// Whether two strings hold the same text.
pub fn same_text(left: &str, right: &str) -> (same: bool)
    ensures
        same == (left@ == right@),
{
    let a = left.to_owned();
    let b = right.to_owned();
    a.eq(&b)
}

/// The state of a prediction question.
#[derive(Clone, Copy, Debug, PartialEq, Eq, PartialOrd, Structural)]
pub enum HopiumStatus {
    ACTIVE,
    RESOLVED,
    CANCELLED,
}

/// Which prediction questions to list.
#[derive(Clone, Copy, Debug, PartialEq, Eq, PartialOrd, Structural)]
pub enum HopiumFilter {
    ACTIVE,
    RESOLVED,
    CANCELLED,
    ALL,
}

impl HopiumFilter {
    /// The word that the service knows the filter by.
    pub open spec fn label(self) -> Seq<char> {
        match self {
            HopiumFilter::ACTIVE => "ACTIVE"@,
            HopiumFilter::RESOLVED => "RESOLVED"@,
            HopiumFilter::CANCELLED => "CANCELLED"@,
            HopiumFilter::ALL => "ALL"@,
        }
    }

    /// The filter that a word names. `ALL` is no word of its own here: it is
    /// what a listing falls back on, and cannot be asked for by name.
    pub open spec fn named(word: Seq<char>) -> Result<HopiumFilter, ()> {
        if word == "ACTIVE"@ {
            Ok(HopiumFilter::ACTIVE)
        } else if word == "RESOLVED"@ {
            Ok(HopiumFilter::RESOLVED)
        } else if word == "CANCELLED"@ {
            Ok(HopiumFilter::CANCELLED)
        } else {
            Err(())
        }
    }

    /// The word that the service knows the filter by.
    pub fn as_str(&self) -> (word: &'static str)
        ensures
            word@ == self.label(),
    {
        match self {
            HopiumFilter::ACTIVE => "ACTIVE",
            HopiumFilter::RESOLVED => "RESOLVED",
            HopiumFilter::CANCELLED => "CANCELLED",
            HopiumFilter::ALL => "ALL",
        }
    }

    /// The filter's word as an owned string.
    pub fn to_string(&self) -> (word: String)
        ensures
            word@ == self.label(),
    {
        self.as_str().to_owned()
    }
}

impl TryFrom<&str> for HopiumFilter {
    type Error = ();

    fn try_from(value: &str) -> (found: Result<Self, Self::Error>) {
        if same_text(value, "ACTIVE") {
            Ok(HopiumFilter::ACTIVE)
        } else if same_text(value, "RESOLVED") {
            Ok(HopiumFilter::RESOLVED)
        } else if same_text(value, "CANCELLED") {
            Ok(HopiumFilter::CANCELLED)
        } else {
            Err(())
        }
    }
}

impl TryFromSpecImpl<&str> for HopiumFilter {
    open spec fn obeys_try_from_spec() -> bool {
        true
    }

    open spec fn try_from_spec(value: &str) -> Result<Self, Self::Error> {
        HopiumFilter::named(value@)
    }
}

/// A filter other than `ALL` is found again under its own word; `ALL` is
/// found under none, its own included.
pub proof fn law_filter_words(filter: HopiumFilter)
    ensures
        filter != HopiumFilter::ALL ==> HopiumFilter::named(filter.label()) == Ok::<
            HopiumFilter,
            (),
        >(filter),
        filter == HopiumFilter::ALL ==> HopiumFilter::named(filter.label()).is_err(),
{
    reveal_strlit("ACTIVE");
    reveal_strlit("RESOLVED");
    reveal_strlit("CANCELLED");
    reveal_strlit("ALL");
    assert("ACTIVE"@.len() == 6);
    assert("RESOLVED"@.len() == 8);
    assert("CANCELLED"@.len() == 9);
    assert("ALL"@.len() == 3);
}

/// Who asked a prediction question, or placed a bet on one.
#[derive(Debug)]
pub struct HopiumCreator {
    pub id: u64,
    pub name: String,
    pub username: String,
    pub image: String,
}

/// The claim information as the service sends it.
#[derive(Debug)]
pub struct ClaimInfoResponse {
    pub base_reward: u32,
    pub can_claim: bool,
    pub last_reward_claim: Option<String>,
    pub login_streak: u32,
    pub next_claim_time: Option<String>,
    pub prestige_bonus: u32,
    pub prestige_level: u32,
    pub reward_amount: u32,
    pub time_remaining: u64,
    pub total_rewards_claimed: u32,
}

/// What is known about the current claim window and the reward in it.
#[derive(Debug)]
pub struct ClaimInfo {
    pub can_claim: bool,
    pub reward_amount: u32,
    pub base_reward: u32,
    pub prestige_bonus: u32,
    pub prestige_level: u32,
    pub time_remaining: u64,
    pub next_claim_time: Option<String>,
    pub total_rewards_claimed: u32,
    pub last_reward_claim: Option<String>,
    pub login_streak: u32,
}

impl ClaimInfo {
    /// The part that the scheduler decides on.
    pub fn status(&self) -> (status: ClaimStatus)
        ensures
            status == (ClaimStatus {
                can_claim: self.can_claim,
                time_remaining: self.time_remaining,
            }),
    {
        ClaimStatus { can_claim: self.can_claim, time_remaining: self.time_remaining }
    }
}

/// The side of a trade on a coin.
#[derive(Clone, Copy, Debug, PartialEq, Eq, Structural)]
pub enum CoinTradeType {
    BUY,
    SELL,
}

/// The body of a trade order.
#[derive(Clone, Copy, Debug, PartialEq, Eq, Structural)]
pub struct TradeRequest {
    pub amount: u32,
    pub trade_type: CoinTradeType,
}

/// The kind of an entry in the list of recent trades.
#[derive(Clone, Copy, Debug, PartialEq, Eq, Structural)]
pub enum TradeType {
    Buy,
    Sell,
    TransferIn,
    TransferOut,
}

} // verus!
