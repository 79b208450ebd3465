use vstd::prelude::*;
use crate::errors::PredictionMarketError;
use crate::payout::{compute_payout, gross_payout, net_of, payout_error, winning_pool_of};
use crate::state::{Bet, Market, MarketStatus, Pubkey};

verus! {

/// What claiming reads and writes: the resolved market, the bet, and the key
/// of the signer who claims it.
#[derive(Debug, Clone, PartialEq, Eq)]
pub struct ClaimPayout {
    pub market: Market,
    pub bet: Bet,
    pub user: Pubkey,
}

/// The error with which `user` claiming `bet` on `m` is refused, if any, in
/// the order in which the checks are made.
pub open spec fn claim_error(m: Market, bet: Bet, user: Pubkey) -> Option<PredictionMarketError> {
    if m.status != MarketStatus::Resolved {
        Some(PredictionMarketError::MarketNotResolved)
    } else if bet.user@ != user@ {
        Some(PredictionMarketError::Unauthorized)
    } else if bet.claimed {
        Some(PredictionMarketError::AlreadyClaimed)
    } else if m.winning_outcome != Some(bet.outcome) {
        Some(PredictionMarketError::NotWinner)
    } else {
        payout_error(m.total_yes_pool, m.total_no_pool, bet.outcome, bet.amount)
    }
}

/// The net payout owed on `bet` from the pool totals of `m`.
pub open spec fn claim_amount(m: Market, bet: Bet) -> int {
    net_of(
        gross_payout(
            bet.amount as int,
            m.total_pool(),
            winning_pool_of(m.total_yes_pool, m.total_no_pool, bet.outcome) as int,
        ),
    )
}

/// The bet with its payout marked as paid.
pub open spec fn claimed(bet: Bet) -> Bet {
    Bet { claimed: true, ..bet }
}

/// Checks that the signer may claim the bet, computes its net payout and
/// marks the bet as claimed. On any failure nothing changes. Paying the
/// returned amount out of the market's escrow is the caller's part, in the
/// same atomic unit.
pub fn handler(ctx: &mut ClaimPayout) -> (r: Result<u64, PredictionMarketError>)
    ensures
        match r {
            Ok(net) => {
                &&& claim_error(old(ctx).market, old(ctx).bet, old(ctx).user) is None
                &&& net == claim_amount(old(ctx).market, old(ctx).bet)
                &&& *final(ctx) == (ClaimPayout { bet: claimed(old(ctx).bet), ..*old(ctx) })
            },
            Err(e) => {
                &&& claim_error(old(ctx).market, old(ctx).bet, old(ctx).user) == Some(e)
                &&& *final(ctx) == *old(ctx)
            },
        },
{
    if ctx.market.status != MarketStatus::Resolved {
        return Err(PredictionMarketError::MarketNotResolved);
    }
    if !ctx.bet.user.same_key(&ctx.user) {
        return Err(PredictionMarketError::Unauthorized);
    }
    if ctx.bet.claimed {
        return Err(PredictionMarketError::AlreadyClaimed);
    }
    let is_winner = match ctx.market.winning_outcome {
        Some(w) => w == ctx.bet.outcome,
        None => false,
    };
    if !is_winner {
        return Err(PredictionMarketError::NotWinner);
    }
    let payout = match compute_payout(
        ctx.market.total_yes_pool,
        ctx.market.total_no_pool,
        ctx.bet.outcome,
        ctx.bet.amount,
    ) {
        Ok(p) => p,
        Err(e) => {
            return Err(e);
        },
    };
    ctx.bet.claimed = true;
    Ok(payout.net)
}

/// Claims are gated and paid once: before resolution a claim is refused
/// with `MarketNotResolved`; the owner's unclaimed bet on the losing side is
/// refused with `NotWinner`; and after a successful claim, claiming the same
/// bet again is refused with `AlreadyClaimed`, so it pays nothing more.
pub proof fn lemma_claim_once(m: Market, bet: Bet, user: Pubkey, next_user: Pubkey)
    ensures
        m.status != MarketStatus::Resolved ==> claim_error(m, bet, user) == Some(
            PredictionMarketError::MarketNotResolved,
        ),
        m.status == MarketStatus::Resolved && bet.user@ == user@ && !bet.claimed
            && m.winning_outcome != Some(bet.outcome) ==> claim_error(m, bet, user) == Some(
            PredictionMarketError::NotWinner,
        ),
        claim_error(m, bet, user) is None && bet.user@ == next_user@ ==> claim_error(
            m,
            claimed(bet),
            next_user,
        ) == Some(PredictionMarketError::AlreadyClaimed),
{
}

} // verus!
