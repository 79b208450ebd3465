use vstd::prelude::*;
use crate::errors::PredictionMarketError;
use crate::state::{Market, MarketStatus, Pubkey, OUTCOME_YES};

verus! {

/// What resolving reads and writes: the market, the key of the signer who
/// asks to resolve it, and the current unix time.
#[derive(Debug, Clone, PartialEq, Eq)]
pub struct ResolveMarket {
    pub market: Market,
    pub authority: Pubkey,
    pub unix_timestamp: i64,
}

/// The error with which `authority` resolving `m` to `winning_outcome` is
/// refused, if any. The market's state is checked first, then the signer,
/// then the outcome.
pub open spec fn resolve_error(m: Market, authority: Pubkey, winning_outcome: u8) -> Option<
    PredictionMarketError,
> {
    if m.status != MarketStatus::Active {
        Some(PredictionMarketError::MarketNotActive)
    } else if m.authority@ != authority@ {
        Some(PredictionMarketError::Unauthorized)
    } else if winning_outcome > OUTCOME_YES {
        Some(PredictionMarketError::InvalidOutcome)
    } else {
        None
    }
}

/// The market after resolution to `winning_outcome` at time `now`.
pub open spec fn resolved(m: Market, winning_outcome: u8, now: i64) -> Market {
    Market {
        status: MarketStatus::Resolved,
        winning_outcome: Some(winning_outcome),
        resolved_at: Some(now),
        ..m
    }
}

/// Moves an active market to `Resolved` with its winning outcome, if the
/// signer is its authority.
pub fn handler(ctx: &mut ResolveMarket, winning_outcome: u8) -> (r: Result<(), PredictionMarketError>)
    ensures
        match r {
            Ok(()) => {
                &&& resolve_error(old(ctx).market, old(ctx).authority, winning_outcome) is None
                &&& *final(ctx) == (ResolveMarket {
                    market: resolved(old(ctx).market, winning_outcome, old(ctx).unix_timestamp),
                    ..*old(ctx)
                })
            },
            Err(e) => {
                &&& resolve_error(old(ctx).market, old(ctx).authority, winning_outcome) == Some(e)
                &&& *final(ctx) == *old(ctx)
            },
        },
        old(ctx).market.wf() ==> final(ctx).market.wf(),
{
    if ctx.market.status != MarketStatus::Active {
        return Err(PredictionMarketError::MarketNotActive);
    }
    if !ctx.market.authority.same_key(&ctx.authority) {
        return Err(PredictionMarketError::Unauthorized);
    }
    if winning_outcome > OUTCOME_YES {
        return Err(PredictionMarketError::InvalidOutcome);
    }
    ctx.market.status = MarketStatus::Resolved;
    ctx.market.winning_outcome = Some(winning_outcome);
    ctx.market.resolved_at = Some(ctx.unix_timestamp);
    Ok(())
}

/// Resolution is gated and happens once: a market that is not active is
/// refused with `MarketNotActive`; an active one resolved by a key other than
/// its authority is refused with `Unauthorized`; after a successful
/// resolution the market is `Resolved` with the given outcome, and every
/// further attempt, by anyone, is refused with `MarketNotActive`.
pub proof fn lemma_resolve_once(
    m: Market,
    authority: Pubkey,
    winning_outcome: u8,
    now: i64,
    next_authority: Pubkey,
    next_outcome: u8,
)
    ensures
        m.status != MarketStatus::Active ==> resolve_error(m, authority, winning_outcome) == Some(
            PredictionMarketError::MarketNotActive,
        ),
        m.status == MarketStatus::Active && m.authority@ != authority@ ==> resolve_error(
            m,
            authority,
            winning_outcome,
        ) == Some(PredictionMarketError::Unauthorized),
        resolve_error(m, authority, winning_outcome) is None ==> {
            let after = resolved(m, winning_outcome, now);
            &&& after.status == MarketStatus::Resolved
            &&& after.winning_outcome == Some(winning_outcome)
            &&& resolve_error(after, next_authority, next_outcome) == Some(
                PredictionMarketError::MarketNotActive,
            )
        },
{
}

} // verus!
