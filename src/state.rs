use vstd::prelude::*;
use vstd::utf8::encode_utf8;

verus! {

/// Smallest stake a bet may carry, in the currency's smallest unit.
pub const MIN_BET: u64 = 10_000_000;

/// Longest market id, in bytes.
pub const MAX_MARKET_ID_LEN: usize = 50;

/// Longest market question, in bytes.
pub const MAX_QUESTION_LEN: usize = 200;

/// Outcome code of the YES side.
pub const OUTCOME_YES: u8 = 1;

/// Length in bytes of the UTF-8 encoding of `s`.
pub open spec fn byte_len(s: Seq<char>) -> nat {
    encode_utf8(s).len()
}

/// A 32-byte public key that identifies an account holder.
#[derive(Debug, Clone, Copy, PartialEq, Eq, Hash)]
pub struct Pubkey(pub [u8; 32]);

impl View for Pubkey {
    type V = Seq<u8>;

    open spec fn view(&self) -> Seq<u8> {
        self.0@
    }
}

impl Pubkey {
    /// The key made of these 32 bytes.
    pub fn new_from_array(bytes: [u8; 32]) -> (r: Pubkey)
        ensures
            r@ == bytes@,
    {
        Pubkey(bytes)
    }

    /// The 32 bytes of this key.
    pub fn to_bytes(&self) -> (r: [u8; 32])
        ensures
            r@ == self@,
    {
        self.0
    }

    /// Whether two keys hold the same bytes.
    pub fn same_key(&self, other: &Pubkey) -> (r: bool)
        ensures
            r == (self@ == other@),
    {
        let mut i: usize = 0;
        while i < 32
            invariant
                i <= 32,
                self@.len() == 32,
                other@.len() == 32,
                forall|j: int| 0 <= j < i ==> self@[j] == other@[j],
            decreases 32 - i,
        {
            if self.0[i] != other.0[i] {
                return false;
            }
            i = i + 1;
        }
        assert(self@ =~= other@);
        true
    }
}

/// Lifecycle phase of a market.
#[derive(Debug, Clone, Copy, PartialEq, Eq, Structural)]
pub enum MarketStatus {
    /// Accepting bets; may be resolved by its authority.
    Active,
    /// Reserved for a phase that stops bets before resolution; no operation
    /// moves a market into or out of it.
    Locked,
    /// Terminal: the winning outcome is fixed and payouts may be claimed.
    Resolved,
}

/// One betting question, with the stakes pooled on each side.
#[derive(Debug, Clone, PartialEq, Eq)]
pub struct Market {
    /// The only key allowed to resolve the market.
    pub authority: Pubkey,
    /// Externally chosen unique identifier.
    pub market_id: String,
    /// Descriptive text of the question.
    pub question: String,
    /// Sum of the stakes on YES.
    pub total_yes_pool: u64,
    /// Sum of the stakes on NO.
    pub total_no_pool: u64,
    pub status: MarketStatus,
    /// `Some(0)` (NO) or `Some(1)` (YES) once resolved.
    pub winning_outcome: Option<u8>,
    /// Unix time of resolution.
    pub resolved_at: Option<i64>,
    /// Unix time of creation.
    pub created_at: i64,
}

impl Market {
    /// The record's invariant: a market is resolved exactly when it carries a
    /// winning outcome and a resolution time, the outcome is a valid side, and
    /// the id and question are within their limits.
    pub open spec fn wf(&self) -> bool {
        &&& (self.status == MarketStatus::Resolved) == (self.winning_outcome is Some)
        &&& (self.status == MarketStatus::Resolved) == (self.resolved_at is Some)
        &&& (self.winning_outcome matches Some(w) ==> w <= OUTCOME_YES)
        &&& byte_len(self.market_id@) <= MAX_MARKET_ID_LEN
        &&& byte_len(self.question@) <= MAX_QUESTION_LEN
    }

    /// The combined pool of both sides, as a mathematical integer.
    pub open spec fn total_pool(&self) -> int {
        self.total_yes_pool + self.total_no_pool
    }

    /// The market with `amount` added to the pool of `outcome` (YES for 1,
    /// NO otherwise), all else unchanged.
    pub open spec fn with_stake(self, outcome: u8, amount: u64) -> Market {
        if outcome == OUTCOME_YES {
            Market { total_yes_pool: (self.total_yes_pool + amount) as u64, ..self }
        } else {
            Market { total_no_pool: (self.total_no_pool + amount) as u64, ..self }
        }
    }

    /// Whether adding `amount` to the pool of `outcome` stays within `u64`.
    pub open spec fn stake_fits(&self, outcome: u8, amount: u64) -> bool {
        if outcome == OUTCOME_YES {
            self.total_yes_pool + amount <= u64::MAX
        } else {
            self.total_no_pool + amount <= u64::MAX
        }
    }

    /// Adds a validated stake to the pool of its side with a checked
    /// addition; on overflow the market is left as it was.
    pub fn credit_pool(&mut self, outcome: u8, amount: u64) -> (r: Result<(), crate::errors::PredictionMarketError>)
        ensures
            old(self).stake_fits(outcome, amount) ==> r is Ok && *final(self) == old(self).with_stake(outcome, amount),
            !old(self).stake_fits(outcome, amount) ==> r == Err::<(), _>(crate::errors::PredictionMarketError::Overflow) && *final(self) == *old(self),
    {
        if outcome == OUTCOME_YES {
            match self.total_yes_pool.checked_add(amount) {
                Some(v) => {
                    self.total_yes_pool = v;
                    Ok(())
                },
                None => Err(crate::errors::PredictionMarketError::Overflow),
            }
        } else {
            match self.total_no_pool.checked_add(amount) {
                Some(v) => {
                    self.total_no_pool = v;
                    Ok(())
                },
                None => Err(crate::errors::PredictionMarketError::Overflow),
            }
        }
    }
}

/// One stake placed by a user on a market.
#[derive(Debug, Clone, Copy, PartialEq, Eq)]
pub struct Bet {
    /// Address of the market the stake was placed on.
    pub market: Pubkey,
    /// The bettor, the only key allowed to claim.
    pub user: Pubkey,
    /// 0 (NO) or 1 (YES).
    pub outcome: u8,
    /// Stake size.
    pub amount: u64,
    /// Set once the payout has been paid.
    pub claimed: bool,
    /// Unix time of placement.
    pub placed_at: i64,
}

impl Bet {
    /// The record's invariant: a valid side and a stake of at least the minimum.
    pub open spec fn wf(&self) -> bool {
        self.outcome <= OUTCOME_YES && self.amount >= MIN_BET
    }
}

} // verus!
