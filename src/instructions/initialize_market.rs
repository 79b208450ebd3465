use vstd::prelude::*;
use crate::errors::PredictionMarketError;
use crate::state::{byte_len, Market, MarketStatus, Pubkey, MAX_MARKET_ID_LEN, MAX_QUESTION_LEN};

verus! {

/// What creating a market reads: the key of its authority, who signed the
/// creation, and the current unix time.
#[derive(Debug, Clone, Copy, PartialEq, Eq)]
pub struct InitializeMarket {
    pub authority: Pubkey,
    pub unix_timestamp: i64,
}

/// The error with which a market of this id and question is refused, if any.
pub open spec fn initialize_error(market_id: Seq<char>, question: Seq<char>) -> Option<
    PredictionMarketError,
> {
    if byte_len(market_id) > MAX_MARKET_ID_LEN {
        Some(PredictionMarketError::MarketIdTooLong)
    } else if byte_len(question) > MAX_QUESTION_LEN {
        Some(PredictionMarketError::QuestionTooLong)
    } else {
        None
    }
}

/// The market that a valid creation yields: active, with empty pools and no
/// winning outcome.
pub open spec fn new_market(
    authority: Pubkey,
    market_id: String,
    question: String,
    unix_timestamp: i64,
) -> Market {
    Market {
        authority,
        market_id,
        question,
        total_yes_pool: 0,
        total_no_pool: 0,
        status: MarketStatus::Active,
        winning_outcome: None,
        resolved_at: None,
        created_at: unix_timestamp,
    }
}

/// Creates a market after checking the lengths of its id and question.
pub fn handler(ctx: &InitializeMarket, market_id: String, question: String) -> (r: Result<
    Market,
    PredictionMarketError,
>)
    ensures
        match r {
            Ok(m) => {
                &&& initialize_error(market_id@, question@) is None
                &&& m == new_market(ctx.authority, market_id, question, ctx.unix_timestamp)
                &&& m.wf()
            },
            Err(e) => initialize_error(market_id@, question@) == Some(e),
        },
{
    if market_id.as_str().as_bytes().len() > MAX_MARKET_ID_LEN {
        return Err(PredictionMarketError::MarketIdTooLong);
    }
    if question.as_str().as_bytes().len() > MAX_QUESTION_LEN {
        return Err(PredictionMarketError::QuestionTooLong);
    }
    Ok(
        Market {
            authority: ctx.authority,
            market_id,
            question,
            total_yes_pool: 0,
            total_no_pool: 0,
            status: MarketStatus::Active,
            winning_outcome: None,
            resolved_at: None,
            created_at: ctx.unix_timestamp,
        },
    )
}

} // verus!
