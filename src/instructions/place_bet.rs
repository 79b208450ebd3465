use vstd::prelude::*;
use crate::errors::PredictionMarketError;
use crate::state::{Bet, Market, MarketStatus, Pubkey, MIN_BET, OUTCOME_YES};

verus! {

/// What placing a bet reads and writes: the market, the market's address,
/// the key of the bettor, who signed the bet and pays the stake, and the
/// current unix time.
#[derive(Debug, Clone, PartialEq, Eq)]
pub struct PlaceBet {
    pub market: Market,
    pub market_key: Pubkey,
    pub user: Pubkey,
    pub unix_timestamp: i64,
}

/// The error with which a stake of `amount` on `outcome` in `m` is refused,
/// if any, in the order in which the checks are made.
pub open spec fn place_bet_error(m: Market, outcome: u8, amount: u64) -> Option<
    PredictionMarketError,
> {
    if m.status != MarketStatus::Active {
        Some(PredictionMarketError::MarketNotActive)
    } else if outcome > OUTCOME_YES {
        Some(PredictionMarketError::InvalidOutcome)
    } else if amount == 0 {
        Some(PredictionMarketError::InvalidAmount)
    } else if amount < MIN_BET {
        Some(PredictionMarketError::BetTooSmall)
    } else if !m.stake_fits(outcome, amount) {
        Some(PredictionMarketError::Overflow)
    } else {
        None
    }
}

/// The bet record that an accepted placement creates.
pub open spec fn placed_bet(ctx: PlaceBet, outcome: u8, amount: u64) -> Bet {
    Bet {
        market: ctx.market_key,
        user: ctx.user,
        outcome,
        amount,
        claimed: false,
        placed_at: ctx.unix_timestamp,
    }
}

/// Validates a stake, adds it to the pool of its side and returns the new
/// bet record. On any failure nothing changes. Moving the stake into the
/// market's escrow is the caller's part, in the same atomic unit.
pub fn handler(ctx: &mut PlaceBet, outcome: u8, amount: u64) -> (r: Result<Bet, PredictionMarketError>)
    ensures
        match r {
            Ok(bet) => {
                &&& place_bet_error(old(ctx).market, outcome, amount) is None
                &&& *final(ctx) == (PlaceBet {
                    market: old(ctx).market.with_stake(outcome, amount),
                    ..*old(ctx)
                })
                &&& bet == placed_bet(*old(ctx), outcome, amount)
                &&& bet.wf()
            },
            Err(e) => {
                &&& place_bet_error(old(ctx).market, outcome, amount) == Some(e)
                &&& *final(ctx) == *old(ctx)
            },
        },
        old(ctx).market.wf() ==> final(ctx).market.wf(),
{
    if ctx.market.status != MarketStatus::Active {
        return Err(PredictionMarketError::MarketNotActive);
    }
    if outcome > OUTCOME_YES {
        return Err(PredictionMarketError::InvalidOutcome);
    }
    if amount == 0 {
        return Err(PredictionMarketError::InvalidAmount);
    }
    if amount < MIN_BET {
        return Err(PredictionMarketError::BetTooSmall);
    }
    match ctx.market.credit_pool(outcome, amount) {
        Ok(()) => {},
        Err(e) => {
            return Err(e);
        },
    }
    Ok(
        Bet {
            market: ctx.market_key,
            user: ctx.user,
            outcome,
            amount,
            claimed: false,
            placed_at: ctx.unix_timestamp,
        },
    )
}

/// The market after a sequence of placements, each given as
/// `(outcome, amount)`: accepted ones add to the pools, refused ones change
/// nothing.
pub open spec fn after_placements(m: Market, stakes: Seq<(u8, u64)>) -> Market
    decreases stakes.len(),
{
    if stakes.len() == 0 {
        m
    } else {
        let before = after_placements(m, stakes.drop_last());
        let stake = stakes.last();
        if place_bet_error(before, stake.0, stake.1) is None {
            before.with_stake(stake.0, stake.1)
        } else {
            before
        }
    }
}

/// The sum of the amounts of the placements of a sequence that are accepted.
pub open spec fn accepted_total(m: Market, stakes: Seq<(u8, u64)>) -> int
    decreases stakes.len(),
{
    if stakes.len() == 0 {
        0
    } else {
        let before = after_placements(m, stakes.drop_last());
        let stake = stakes.last();
        accepted_total(m, stakes.drop_last()) + if place_bet_error(before, stake.0, stake.1) is None {
            stake.1 as int
        } else {
            0
        }
    }
}

/// Over any sequence of placements on an active market, the market stays
/// active and the combined pool grows by exactly the sum of the accepted
/// amounts. A placement of zero, of less than the minimum or on an outcome
/// other than 0 or 1 is always refused, and leaves the market as it was.
pub proof fn lemma_pools_sum_accepted_stakes(m: Market, stakes: Seq<(u8, u64)>)
    requires
        m.status == MarketStatus::Active,
    ensures
        after_placements(m, stakes).status == MarketStatus::Active,
        after_placements(m, stakes).total_pool() == m.total_pool() + accepted_total(m, stakes),
        forall|i: int|
            0 <= i < stakes.len() && (stakes[i].1 == 0 || stakes[i].1 < MIN_BET || stakes[i].0
                > OUTCOME_YES) ==> {
                let before = #[trigger] after_placements(m, stakes.take(i));
                &&& place_bet_error(before, stakes[i].0, stakes[i].1) is Some
                &&& after_placements(m, stakes.take(i + 1)) == before
            },
{
    lemma_pools_grow_by_accepted(m, stakes);
    assert forall|i: int|
        0 <= i < stakes.len() && (stakes[i].1 == 0 || stakes[i].1 < MIN_BET || stakes[i].0
            > OUTCOME_YES) implies {
        let before = #[trigger] after_placements(m, stakes.take(i));
        &&& place_bet_error(before, stakes[i].0, stakes[i].1) is Some
        &&& after_placements(m, stakes.take(i + 1)) == before
    } by {
        let prefix = stakes.take(i + 1);
        assert(prefix.drop_last() =~= stakes.take(i));
        assert(prefix.last() == stakes[i]);
    }
}

proof fn lemma_pools_grow_by_accepted(m: Market, stakes: Seq<(u8, u64)>)
    requires
        m.status == MarketStatus::Active,
    ensures
        after_placements(m, stakes).status == MarketStatus::Active,
        after_placements(m, stakes).total_pool() == m.total_pool() + accepted_total(m, stakes),
    decreases stakes.len(),
{
    if stakes.len() > 0 {
        lemma_pools_grow_by_accepted(m, stakes.drop_last());
    }
}

} // verus!
