//! Quote engine for a two-asset liquidity pool governed by a bonding curve.
//!
//! The library computes, for a proposed trade against a pool's cached
//! reserves, the output amount and the fee split, under one of a closed set
//! of curve formulas (constant product, amplified hybrid, redemption rate).
//! Account decoding, program-address derivation and instruction assembly are
//! thin marshalling done by the host; the host hands this library plain
//! values (balances, identifiers, amounts, timestamps) and takes plain
//! values back.

mod amm;
mod curve;
mod error;
mod fees;
mod swap_curve_info;

pub use amm::{
    lemma_zero_input_quote, AccountId, NovaPsmAmm, PoolState, Quote, SwapAccounts, SwapParams, TradeRequest,
};
pub use curve::{
    cp_new_destination, cp_output, cs_output, hybrid_output, rr_effective_numerator, rr_elapsed,
    rr_output, lemma_constant_product_invariant, lemma_cp_output_monotone, lemma_cp_round_trip,
    lemma_hybrid_bounds, lemma_hybrid_monotone, lemma_output_monotone, CurveCalculator,
    CurveResult, TradeDirection,
};
pub use error::SwapError;
pub use fees::{lemma_fee_le_gross, lemma_net_monotone, FeePct, Fees};
pub use swap_curve_info::{get_swap_curve_result, SwapResult};
