use vstd::prelude::*;
use crate::curve::{CurveCalculator, TradeDirection};
use crate::error::SwapError;
use crate::fees::{lemma_fee_le_gross, FeePct, Fees};

verus! {

/// The evaluator's structured result for one quote request: amounts in
/// trade-size units, total fee (trade + owner, in input units), and the
/// schedule's combined fee ratio for display.
#[derive(Clone, Copy, Debug, PartialEq, Eq, Structural)]
pub struct SwapResult {
    pub expected_output_amount: u128,
    pub fees: u128,
    pub input_amount: u128,
    pub fee_pct: FeePct,
}

/// Evaluates a curve for a proposed trade and packages the result.
///
/// The curve is evaluated against the resolved source and destination
/// reserves; on success the two fee components are summed into one total
/// and the schedule's combined ratio is attached. Curve failures pass
/// through unchanged; a schedule whose two denominators differ fails with
/// `ConfigurationError` when the ratio is formed.
pub fn get_swap_curve_result(
    swap_curve: &CurveCalculator,
    amount: u64,
    swap_source_amount: u128,
    swap_destination_amount: u128,
    trade_direction: TradeDirection,
    fees: &Fees,
    timestamp: Option<u128>,
) -> (r: Result<SwapResult, SwapError>)
    requires
        swap_curve.is_valid(),
        fees.is_valid(),
    ensures
        ({
            let s = swap_curve.swap_spec(
                amount as int,
                swap_source_amount as int,
                swap_destination_amount as int,
                *fees,
                timestamp,
            );
            &&& (r is Ok <==> s is Ok && fees.trade_fee_denominator
                == fees.owner_trade_fee_denominator)
            &&& (s is Err ==> r is Err && r->Err_0 == s->Err_0)
            &&& (s is Ok && fees.trade_fee_denominator != fees.owner_trade_fee_denominator
                ==> r == Err::<SwapResult, SwapError>(SwapError::ConfigurationError))
            &&& (r is Ok ==> {
                &&& r->Ok_0.input_amount as int == s->Ok_0.0
                &&& r->Ok_0.expected_output_amount as int == s->Ok_0.1
                &&& r->Ok_0.fees as int == s->Ok_0.2 + s->Ok_0.3
                &&& r->Ok_0.fee_pct == (FeePct {
                    numerator: (fees.trade_fee_numerator + fees.owner_trade_fee_numerator) as u128,
                    denominator: fees.trade_fee_denominator,
                })
            })
        }),
        r is Ok ==> r->Ok_0.expected_output_amount < swap_destination_amount,
{
    let curve_result = match swap_curve.swap(
        amount as u128,
        swap_source_amount,
        swap_destination_amount,
        trade_direction,
        fees,
        timestamp,
    ) {
        Ok(v) => v,
        Err(e) => {
            return Err(e);
        },
    };
    let fee_pct = match fees.fee_pct() {
        Ok(v) => v,
        Err(e) => {
            return Err(e);
        },
    };
    proof {
        lemma_fee_le_gross(
            amount as int,
            fees.trade_fee_numerator as int,
            fees.trade_fee_denominator as int,
        );
        lemma_fee_le_gross(
            amount as int,
            fees.owner_trade_fee_numerator as int,
            fees.owner_trade_fee_denominator as int,
        );
    }
    Ok(
        SwapResult {
            expected_output_amount: curve_result.destination_amount_swapped,
            fees: curve_result.trade_fee + curve_result.owner_fee,
            input_amount: curve_result.source_amount_swapped,
            fee_pct,
        },
    )
}

} // verus!
