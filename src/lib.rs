//! Settlement logic of a binary (yes/no) prediction market: market and bet
//! records, the market lifecycle, escrow pool accounting and the pari-mutuel
//! payout with its platform fee.
//!
//! The host around the library locates records, verifies signatures, keeps
//! the clock and moves funds; it hands the library the records and keys an
//! operation concerns and commits the results only when the library accepts.
pub mod errors;
pub mod state;
pub mod payout;
pub mod instructions;

use vstd::prelude::*;
use crate::errors::PredictionMarketError;
use crate::instructions::claim_payout::{claim_amount, claim_error, claimed, ClaimPayout};
use crate::instructions::initialize_market::{initialize_error, new_market, InitializeMarket};
use crate::instructions::place_bet::{place_bet_error, placed_bet, PlaceBet};
use crate::instructions::resolve_market::{resolve_error, resolved, ResolveMarket};
use crate::state::{Bet, Market};

verus! {

/// Creates a new market, active with empty pools, whose authority is the
/// signer of the creation.
pub fn initialize_market(ctx: &InitializeMarket, market_id: String, question: String) -> (r: Result<
    Market,
    PredictionMarketError,
>)
    ensures
        match r {
            Ok(m) => {
                &&& initialize_error(market_id@, question@) is None
                &&& m == new_market(ctx.authority, market_id, question, ctx.unix_timestamp)
                &&& m.wf()
            },
            Err(e) => initialize_error(market_id@, question@) == Some(e),
        },
{
    instructions::initialize_market::handler(ctx, market_id, question)
}

/// Places a bet on a market outcome and returns the new bet record.
pub fn place_bet(ctx: &mut PlaceBet, outcome: u8, amount: u64) -> (r: Result<Bet, PredictionMarketError>)
    ensures
        match r {
            Ok(bet) => {
                &&& place_bet_error(old(ctx).market, outcome, amount) is None
                &&& *final(ctx) == (PlaceBet {
                    market: old(ctx).market.with_stake(outcome, amount),
                    ..*old(ctx)
                })
                &&& bet == placed_bet(*old(ctx), outcome, amount)
                &&& bet.wf()
            },
            Err(e) => {
                &&& place_bet_error(old(ctx).market, outcome, amount) == Some(e)
                &&& *final(ctx) == *old(ctx)
            },
        },
        old(ctx).market.wf() ==> final(ctx).market.wf(),
{
    instructions::place_bet::handler(ctx, outcome, amount)
}

/// Resolves a market with its winning outcome.
pub fn resolve_market(ctx: &mut ResolveMarket, winning_outcome: u8) -> (r: Result<
    (),
    PredictionMarketError,
>)
    ensures
        match r {
            Ok(()) => {
                &&& resolve_error(old(ctx).market, old(ctx).authority, winning_outcome) is None
                &&& *final(ctx) == (ResolveMarket {
                    market: resolved(old(ctx).market, winning_outcome, old(ctx).unix_timestamp),
                    ..*old(ctx)
                })
            },
            Err(e) => {
                &&& resolve_error(old(ctx).market, old(ctx).authority, winning_outcome) == Some(e)
                &&& *final(ctx) == *old(ctx)
            },
        },
        old(ctx).market.wf() ==> final(ctx).market.wf(),
{
    instructions::resolve_market::handler(ctx, winning_outcome)
}

/// Claims the payout of a winning bet and returns the net amount owed.
pub fn claim_payout(ctx: &mut ClaimPayout) -> (r: Result<u64, PredictionMarketError>)
    ensures
        match r {
            Ok(net) => {
                &&& claim_error(old(ctx).market, old(ctx).bet, old(ctx).user) is None
                &&& net == claim_amount(old(ctx).market, old(ctx).bet)
                &&& *final(ctx) == (ClaimPayout { bet: claimed(old(ctx).bet), ..*old(ctx) })
            },
            Err(e) => {
                &&& claim_error(old(ctx).market, old(ctx).bet, old(ctx).user) == Some(e)
                &&& *final(ctx) == *old(ctx)
            },
        },
{
    instructions::claim_payout::handler(ctx)
}

} // verus!
