use vstd::prelude::*;
use crate::errors::PredictionMarketError;
use crate::state::OUTCOME_YES;

verus! {

/// Platform fee, in percent of the gross payout.
pub const FEE_PERCENT: u64 = 2;

/// The pool of the side `outcome` names: YES for 1, NO otherwise.
pub open spec fn winning_pool_of(total_yes_pool: u64, total_no_pool: u64, outcome: u8) -> u64 {
    if outcome == OUTCOME_YES {
        total_yes_pool
    } else {
        total_no_pool
    }
}

/// Pari-mutuel share of the combined pool: `floor(amount * total_pool / winning_pool)`.
pub open spec fn gross_payout(amount: int, total_pool: int, winning_pool: int) -> int {
    amount * total_pool / winning_pool
}

/// The platform fee on a gross payout, rounded down.
pub open spec fn platform_fee_of(gross: int) -> int {
    gross * FEE_PERCENT / 100
}

/// What the claimant receives of a gross payout.
pub open spec fn net_of(gross: int) -> int {
    gross - platform_fee_of(gross)
}

/// The error with which the payout of a stake of `amount` on `outcome` is
/// refused, if any: the combined pool or the gross payout does not fit in
/// `u64`, or nobody staked the winning side.
pub open spec fn payout_error(
    total_yes_pool: u64,
    total_no_pool: u64,
    outcome: u8,
    amount: u64,
) -> Option<PredictionMarketError> {
    let total = total_yes_pool + total_no_pool;
    let winning = winning_pool_of(total_yes_pool, total_no_pool, outcome);
    if total > u64::MAX {
        Some(PredictionMarketError::Overflow)
    } else if winning == 0 {
        Some(PredictionMarketError::DivisionByZero)
    } else if gross_payout(amount as int, total, winning as int) > u64::MAX {
        Some(PredictionMarketError::Overflow)
    } else {
        None
    }
}

/// A payout split into its gross amount, the platform fee and the net amount.
#[derive(Debug, Clone, Copy, PartialEq, Eq, Structural)]
pub struct Payout {
    pub gross: u64,
    pub fee: u64,
    pub net: u64,
}

impl Payout {
    /// The split of `gross` that this payout must be.
    pub open spec fn splits(&self, gross: int) -> bool {
        &&& self.gross == gross
        &&& self.fee == platform_fee_of(gross)
        &&& self.net == net_of(gross)
    }
}

/// Splits a gross payout into the platform fee and the net payout.
pub fn split_fee(gross: u64) -> (r: Payout)
    ensures
        r.splits(gross as int),
        r.fee <= r.gross,
{
    let rate: u128 = FEE_PERCENT as u128;
    assert(gross * rate <= u128::MAX) by (nonlinear_arith)
        requires
            rate == 2,
            gross <= u64::MAX,
    ;
    let wide: u128 = gross as u128 * rate;
    let fee_wide: u128 = wide / 100;
    assert(fee_wide <= gross) by (nonlinear_arith)
        requires
            wide == gross * 2,
            fee_wide == wide / 100,
    ;
    let fee: u64 = fee_wide as u64;
    Payout { gross, fee, net: gross - fee }
}

/// Computes the payout of a winning stake of `amount` on `outcome` from the
/// pool totals: the share of the combined pool in proportion to the stake's
/// share of the winning pool, less the platform fee. Intermediate products
/// are computed in 128 bits.
pub fn compute_payout(total_yes_pool: u64, total_no_pool: u64, outcome: u8, amount: u64) -> (r: Result<
    Payout,
    PredictionMarketError,
>)
    ensures
        match r {
            Ok(p) => {
                &&& payout_error(total_yes_pool, total_no_pool, outcome, amount) is None
                &&& p.splits(
                    gross_payout(
                        amount as int,
                        total_yes_pool + total_no_pool,
                        winning_pool_of(total_yes_pool, total_no_pool, outcome) as int,
                    ),
                )
            },
            Err(e) => payout_error(total_yes_pool, total_no_pool, outcome, amount) == Some(e),
        },
{
    let total_pool: u64 = match total_yes_pool.checked_add(total_no_pool) {
        Some(t) => t,
        None => {
            return Err(PredictionMarketError::Overflow);
        },
    };
    let winning_pool: u64 = if outcome == OUTCOME_YES {
        total_yes_pool
    } else {
        total_no_pool
    };
    if winning_pool == 0 {
        return Err(PredictionMarketError::DivisionByZero);
    }
    assert((amount as int) * (total_pool as int) <= (u64::MAX as int) * (u64::MAX as int))
        by (nonlinear_arith)
        requires
            amount <= u64::MAX,
            total_pool <= u64::MAX,
    ;
    let product: u128 = amount as u128 * total_pool as u128;
    let gross_wide: u128 = product / winning_pool as u128;
    if gross_wide > u64::MAX as u128 {
        return Err(PredictionMarketError::Overflow);
    }
    Ok(split_fee(gross_wide as u64))
}

/// For fixed pool totals with a staked winning side, the net payout never
/// decreases as the stake grows; the net payout is at most the gross payout,
/// and for a stake that is part of the winning pool the gross payout is at
/// most the combined pool.
pub proof fn lemma_payout_monotonic(
    total_yes_pool: u64,
    total_no_pool: u64,
    outcome: u8,
    smaller: u64,
    larger: u64,
)
    requires
        winning_pool_of(total_yes_pool, total_no_pool, outcome) > 0,
        smaller <= larger,
    ensures
        ({
            let total = total_yes_pool + total_no_pool;
            let winning = winning_pool_of(total_yes_pool, total_no_pool, outcome) as int;
            let g_small = gross_payout(smaller as int, total, winning);
            let g_large = gross_payout(larger as int, total, winning);
            &&& g_small <= g_large
            &&& net_of(g_small) <= net_of(g_large)
            &&& 0 <= net_of(g_large) <= g_large
            &&& larger <= winning ==> g_large <= total
        }),
{
    let total = total_yes_pool + total_no_pool;
    let winning = winning_pool_of(total_yes_pool, total_no_pool, outcome) as int;
    let g_small = gross_payout(smaller as int, total, winning);
    let g_large = gross_payout(larger as int, total, winning);
    assert(g_small <= g_large) by (nonlinear_arith)
        requires
            0 <= smaller <= larger,
            total >= 0,
            winning > 0,
            g_small == smaller * total / winning,
            g_large == larger * total / winning,
    ;
    lemma_net_monotonic(g_small, g_large);
    lemma_net_monotonic(0, g_large);
    assert(larger <= winning ==> g_large <= total) by (nonlinear_arith)
        requires
            larger >= 0,
            total >= 0,
            winning > 0,
            g_large == larger * total / winning,
    ;
}

/// The net payout never decreases as the gross payout grows, and never
/// exceeds it.
pub proof fn lemma_net_monotonic(g1: int, g2: int)
    requires
        0 <= g1 <= g2,
    ensures
        0 <= net_of(g1) <= net_of(g2),
        net_of(g2) <= g2,
{
    let f1 = g1 * 2 / 100;
    let f2 = g2 * 2 / 100;
    assert(f1 <= f2 && f2 - f1 <= g2 - g1 && 0 <= f1 <= g1 && 0 <= f2 <= g2) by (nonlinear_arith)
        requires
            0 <= g1 <= g2,
            f1 == g1 * 2 / 100,
            f2 == g2 * 2 / 100,
    ;
}

/// The sum of a sequence of stakes.
pub open spec fn stake_sum(stakes: Seq<u64>) -> int
    decreases stakes.len(),
{
    if stakes.len() == 0 {
        0
    } else {
        stake_sum(stakes.drop_last()) + stakes.last()
    }
}

/// The sum of the net payouts owed on a sequence of winning stakes, all
/// computed from the same pool totals.
pub open spec fn net_payout_total(stakes: Seq<u64>, total_pool: int, winning_pool: int) -> int
    decreases stakes.len(),
{
    if stakes.len() == 0 {
        0
    } else {
        net_payout_total(stakes.drop_last(), total_pool, winning_pool) + net_of(
            gross_payout(stakes.last() as int, total_pool, winning_pool),
        )
    }
}

/// Pool totals are not reduced when payouts are claimed, so every claim is
/// computed from the same totals. This stays solvent: for winning stakes
/// that together make up at most the winning pool, the net payouts owed on
/// them add up to at most the combined pool.
pub proof fn lemma_payouts_within_pool(stakes: Seq<u64>, total_pool: int, winning_pool: int)
    requires
        winning_pool > 0,
        total_pool >= 0,
        stake_sum(stakes) <= winning_pool,
    ensures
        net_payout_total(stakes, total_pool, winning_pool) <= total_pool,
{
    lemma_payout_total_bound(stakes, total_pool, winning_pool);
    let s = stake_sum(stakes);
    assert(s * total_pool / winning_pool <= total_pool) by (nonlinear_arith)
        requires
            0 <= s <= winning_pool,
            total_pool >= 0,
            winning_pool > 0,
    ;
}

proof fn lemma_payout_total_bound(stakes: Seq<u64>, total_pool: int, winning_pool: int)
    requires
        winning_pool > 0,
        total_pool >= 0,
    ensures
        0 <= stake_sum(stakes),
        net_payout_total(stakes, total_pool, winning_pool) <= stake_sum(stakes) * total_pool
            / winning_pool,
    decreases stakes.len(),
{
    if stakes.len() > 0 {
        let rest = stakes.drop_last();
        lemma_payout_total_bound(rest, total_pool, winning_pool);
        let x = stake_sum(rest) * total_pool;
        let y = stakes.last() * total_pool;
        let g = gross_payout(stakes.last() as int, total_pool, winning_pool);
        assert(0 <= y);
        assert(0 <= x) by (nonlinear_arith)
            requires
                stake_sum(rest) >= 0,
                total_pool >= 0,
                x == stake_sum(rest) * total_pool,
        ;
        lemma_net_monotonic(0, g);
        assert(x / winning_pool + y / winning_pool <= (x + y) / winning_pool) by (nonlinear_arith)
            requires
                x >= 0,
                y >= 0,
                winning_pool > 0,
        ;
        assert(x + y == stake_sum(stakes) * total_pool) by (nonlinear_arith)
            requires
                x == stake_sum(rest) * total_pool,
                y == stakes.last() * total_pool,
                stake_sum(stakes) == stake_sum(rest) + stakes.last(),
        ;
    }
}

} // verus!
