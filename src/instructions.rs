//! The four operations on markets and bets. Each takes the records it
//! reads and writes, together with the keys and the clock value the host
//! vouches for, and either commits all of its effects or fails with no
//! effect at all.
pub mod initialize_market;
pub mod place_bet;
pub mod resolve_market;
pub mod claim_payout;
