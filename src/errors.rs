use vstd::prelude::*;

verus! {

/// Reason codes with which an operation on a market or a bet is rejected.
#[derive(Debug, Clone, Copy, PartialEq, Eq, Structural)]
pub enum PredictionMarketError {
    /// The market no longer accepts bets or resolution.
    MarketNotActive,
    /// Payouts are only paid once the market is resolved.
    MarketNotResolved,
    /// An outcome other than 0 (NO) or 1 (YES).
    InvalidOutcome,
    /// A stake of zero.
    InvalidAmount,
    /// A stake under the minimum bet.
    BetTooSmall,
    /// The caller is not the market's authority or the bet's owner.
    Unauthorized,
    /// The bet's payout was already paid.
    AlreadyClaimed,
    /// The bet was placed on the losing side.
    NotWinner,
    /// A checked addition or multiplication left its numeric range.
    Overflow,
    /// Nobody staked the winning side.
    DivisionByZero,
    /// The market id is longer than its limit in bytes.
    MarketIdTooLong,
    /// The question is longer than its limit in bytes.
    QuestionTooLong,
}

impl PredictionMarketError {
    /// The human-readable message of this error.
    pub fn message(&self) -> (r: String) {
        match self {
            PredictionMarketError::MarketNotActive => String::from_str("Market is not active"),
            PredictionMarketError::MarketNotResolved => String::from_str("Market is not resolved yet"),
            PredictionMarketError::InvalidOutcome => String::from_str("Invalid outcome (must be 0 or 1)"),
            PredictionMarketError::InvalidAmount => String::from_str("Invalid amount"),
            PredictionMarketError::BetTooSmall => String::from_str("Bet amount too small (minimum 0.01 SOL)"),
            PredictionMarketError::Unauthorized => String::from_str("Unauthorized"),
            PredictionMarketError::AlreadyClaimed => String::from_str("Payout already claimed"),
            PredictionMarketError::NotWinner => String::from_str("Not a winner"),
            PredictionMarketError::Overflow => String::from_str("Arithmetic overflow"),
            PredictionMarketError::DivisionByZero => String::from_str("Division by zero"),
            PredictionMarketError::MarketIdTooLong => String::from_str("Market ID too long (max 50 characters)"),
            PredictionMarketError::QuestionTooLong => String::from_str("Question too long (max 200 characters)"),
        }
    }
}

} // verus!
