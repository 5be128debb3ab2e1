use vstd::prelude::*;
use vstd::arithmetic::div_mod::{
    lemma_basic_div, lemma_div_is_ordered, lemma_div_pos_is_pos, lemma_fundamental_div_mod,
    lemma_hoist_over_denominator, lemma_mod_division_less_than_divisor,
    lemma_multiply_divide_lt,
};
use vstd::arithmetic::mul::{
    lemma_mul_inequality, lemma_mul_inequality_converse, lemma_mul_is_commutative,
    lemma_mul_nonnegative, lemma_mul_strictly_positive,
};
use crate::error::SwapError;
use crate::fees::Fees;

verus! {

/// Which of the pool's two assets is sold into the pool.
#[derive(Clone, Copy, Debug, PartialEq, Eq, Structural)]
pub enum TradeDirection {
    AtoB,
    BtoA,
}

/// The closed family of bonding-curve formulas a pool can be governed by.
/// The variant is fixed at pool creation and never changes.
#[derive(Clone, Copy, Debug, PartialEq, Eq, Structural)]
pub enum CurveCalculator {
    /// Preserves `source * destination` across a swap, rounding the new
    /// destination reserve up so rounding always favours the pool.
    ConstantProduct,
    /// A deterministic closed-form blend of constant-sum and
    /// constant-product behaviour: the two component outputs are averaged
    /// with weight `amp` on the constant-sum side. No iteration is
    /// involved, so results are reproducible byte for byte.
    Stable { amp: u64 },
    /// Swaps at a redemption rate `numerator / denominator` whose numerator
    /// accrues linearly with the seconds elapsed since a reference point.
    /// Requires a present timestamp.
    RedemptionRate {
        rate_numerator: u64,
        rate_denominator: u64,
        rate_accrual_per_second: u64,
        reference_timestamp: u64,
    },
}

/// What a curve computed for one proposed trade: how much of the input is
/// consumed, how much output is produced, and the two fee components
/// (denominated in the input asset, taken before the invariant is applied).
#[derive(Clone, Copy, Debug, PartialEq, Eq, Structural)]
pub struct CurveResult {
    pub source_amount_swapped: u128,
    pub destination_amount_swapped: u128,
    pub trade_fee: u128,
    pub owner_fee: u128,
}

/// The new destination reserve after a fee-free constant-product swap:
/// the ceiling of `source * dest / (source + net_input)`, so the pool never
/// loses to rounding.
pub open spec fn cp_new_destination(net_input: int, source: int, dest: int) -> int {
    (source * dest + (source + net_input) - 1) / (source + net_input)
}

/// Output of a fee-free constant-product swap.
pub open spec fn cp_output(net_input: int, source: int, dest: int) -> int {
    dest - cp_new_destination(net_input, source, dest)
}

/// Output of a fee-free constant-sum swap: one for one, capped by the
/// destination reserve.
pub open spec fn cs_output(net_input: int, dest: int) -> int {
    if net_input <= dest {
        net_input
    } else {
        dest
    }
}

/// Output of the amplified hybrid: the constant-sum and constant-product
/// outputs averaged with weight `amp` on the constant-sum side.
pub open spec fn hybrid_output(amp: int, net_input: int, source: int, dest: int) -> int {
    (amp * cs_output(net_input, dest) + cp_output(net_input, source, dest)) / (amp + 1)
}

/// Seconds elapsed since the curve's reference point; a timestamp before
/// the reference counts as no elapsed time.
pub open spec fn rr_elapsed(reference: int, ts: int) -> int {
    if ts >= reference {
        ts - reference
    } else {
        0
    }
}

/// The redemption-rate numerator after linear accrual.
pub open spec fn rr_effective_numerator(rate_num: int, accrual: int, reference: int, ts: int) -> int {
    rate_num + accrual * rr_elapsed(reference, ts)
}

/// Output of a fee-free redemption-rate swap.
pub open spec fn rr_output(net_input: int, eff_num: int, den: int) -> int {
    net_input * eff_num / den
}

impl CurveCalculator {
    /// Well-formedness of the curve parameters, fixed at pool creation.
    pub open spec fn is_valid(self) -> bool {
        match self {
            CurveCalculator::ConstantProduct => true,
            CurveCalculator::Stable { amp } => amp >= 1,
            CurveCalculator::RedemptionRate { rate_denominator, .. } => rate_denominator > 0,
        }
    }

    /// Whether the variant needs a present timestamp.
    pub open spec fn needs_timestamp(self) -> bool {
        self is RedemptionRate
    }

    /// The fee-free output of this curve for a net input against the given
    /// reserves (at the given time, for the time-dependent variant).
    pub open spec fn output_spec(self, net: int, source: int, dest: int, ts: int) -> int {
        match self {
            CurveCalculator::ConstantProduct => cp_output(net, source, dest),
            CurveCalculator::Stable { amp } => hybrid_output(amp as int, net, source, dest),
            CurveCalculator::RedemptionRate {
                rate_numerator,
                rate_denominator,
                rate_accrual_per_second,
                reference_timestamp,
            } => rr_output(
                net,
                rr_effective_numerator(
                    rate_numerator as int,
                    rate_accrual_per_second as int,
                    reference_timestamp as int,
                    ts,
                ),
                rate_denominator as int,
            ),
        }
    }

    /// Whether every intermediate value of the curve computation stays
    /// within 128 bits.
    pub open spec fn compute_fits(self, net: int, source: int, dest: int, ts: int) -> bool {
        match self {
            CurveCalculator::ConstantProduct => source * dest <= u128::MAX && source + net
                <= u128::MAX,
            CurveCalculator::Stable { amp } => {
                &&& source * dest <= u128::MAX
                &&& source + net <= u128::MAX
                &&& amp * cs_output(net, dest) <= u128::MAX
                &&& amp * cs_output(net, dest) + cp_output(net, source, dest) <= u128::MAX
            },
            CurveCalculator::RedemptionRate {
                rate_numerator,
                rate_denominator,
                rate_accrual_per_second,
                reference_timestamp,
            } => {
                let elapsed = rr_elapsed(reference_timestamp as int, ts);
                &&& rate_accrual_per_second * elapsed <= u128::MAX
                &&& rate_numerator + rate_accrual_per_second * elapsed <= u128::MAX
                &&& net * rr_effective_numerator(
                    rate_numerator as int,
                    rate_accrual_per_second as int,
                    reference_timestamp as int,
                    ts,
                ) <= u128::MAX
            },
        }
    }

    /// The complete mathematical model of `swap`: for every input it gives
    /// either the exact quadruple (consumed, output, trade fee, owner fee)
    /// or the exact error.
    pub open spec fn swap_spec(
        self,
        amount: int,
        source: int,
        dest: int,
        fees: Fees,
        ts_opt: Option<u128>,
    ) -> Result<(int, int, int, int), SwapError> {
        if source <= 0 || dest <= 0 {
            Err(SwapError::InsufficientLiquidity)
        } else if self.needs_timestamp() && ts_opt is None {
            Err(SwapError::MissingTimestamp)
        } else if amount == 0 {
            Ok((0, 0, 0, 0))
        } else if amount * fees.trade_fee_numerator > u128::MAX || amount
            * fees.owner_trade_fee_numerator > u128::MAX {
            Err(SwapError::Overflow)
        } else if fees.trade_fee_of(amount) + fees.owner_fee_of(amount) > amount {
            Err(SwapError::ConfigurationError)
        } else {
            let ts = match ts_opt {
                Some(t) => t as int,
                None => 0,
            };
            let net = fees.net_of(amount);
            if !self.compute_fits(net, source, dest, ts) {
                Err(SwapError::Overflow)
            } else {
                let out = self.output_spec(net, source, dest, ts);
                if self is RedemptionRate && out >= dest {
                    Err(SwapError::InsufficientLiquidity)
                } else {
                    Ok((amount, out, fees.trade_fee_of(amount), fees.owner_fee_of(amount)))
                }
            }
        }
    }

    /// Whether the curve parameters are well formed.
    pub fn is_well_formed(&self) -> (b: bool)
        ensures
            b == self.is_valid(),
    {
        match self {
            CurveCalculator::ConstantProduct => true,
            CurveCalculator::Stable { amp } => *amp >= 1,
            CurveCalculator::RedemptionRate { rate_denominator, .. } => *rate_denominator > 0,
        }
    }

    /// Whether the variant needs a present timestamp.
    pub fn requires_timestamp(&self) -> (b: bool)
        ensures
            b == self.needs_timestamp(),
    {
        match self {
            CurveCalculator::RedemptionRate { .. } => true,
            _ => false,
        }
    }

    /// Fee-free constant-product step: new destination reserve is the
    /// ceiling of `source * dest / (source + net)`.
    fn constant_product_swap(net: u128, source: u128, dest: u128) -> (r: Result<u128, SwapError>)
        requires
            source >= 1,
            dest >= 1,
        ensures
            r is Ok <==> (source * dest <= u128::MAX && source + net <= u128::MAX),
            r is Ok ==> r->Ok_0 as int == cp_output(net as int, source as int, dest as int)
                && r->Ok_0 < dest,
            r is Err ==> r->Err_0 == SwapError::Overflow,
    {
        let p = match source.checked_mul(dest) {
            Some(p) => p,
            None => {
                return Err(SwapError::Overflow);
            },
        };
        let d = match source.checked_add(net) {
            Some(d) => d,
            None => {
                return Err(SwapError::Overflow);
            },
        };
        proof {
            lemma_mul_strictly_positive(source as int, dest as int);
            lemma_ceil_div(p as int, d as int);
            lemma_constant_product_invariant(net as int, source as int, dest as int);
        }
        let q = p / d;
        let rem = p % d;
        let new_dest = if rem > 0 {
            q + 1
        } else {
            q
        };
        Ok(dest - new_dest)
    }

    /// Evaluates this curve for a proposed trade.
    ///
    /// Fees are deducted from the input before the invariant is applied.
    /// The result is pinned, case by case, by `swap_spec`; the headline
    /// facts are restated below it: the reserves must both be non-empty, a
    /// time-dependent curve needs a timestamp, a zero input yields a zero
    /// output and zero fees, and the output never reaches the destination
    /// reserve. The trade direction does not enter the formula: the caller
    /// has already resolved which reserve is the source.
    pub fn swap(
        &self,
        source_amount: u128,
        swap_source_amount: u128,
        swap_destination_amount: u128,
        _trade_direction: TradeDirection,
        fees: &Fees,
        timestamp: Option<u128>,
    ) -> (r: Result<CurveResult, SwapError>)
        requires
            self.is_valid(),
            fees.is_valid(),
        ensures
            ({
                let s = self.swap_spec(
                    source_amount as int,
                    swap_source_amount as int,
                    swap_destination_amount as int,
                    *fees,
                    timestamp,
                );
                &&& (r is Ok <==> s is Ok)
                &&& (r is Err ==> s is Err && r->Err_0 == s->Err_0)
                &&& (r is Ok ==> {
                    &&& r->Ok_0.source_amount_swapped as int == s->Ok_0.0
                    &&& r->Ok_0.destination_amount_swapped as int == s->Ok_0.1
                    &&& r->Ok_0.trade_fee as int == s->Ok_0.2
                    &&& r->Ok_0.owner_fee as int == s->Ok_0.3
                })
            }),
            r is Ok ==> r->Ok_0.destination_amount_swapped < swap_destination_amount
                && r->Ok_0.source_amount_swapped == source_amount,
            swap_source_amount == 0 || swap_destination_amount == 0 ==> r == Err::<
                CurveResult,
                SwapError,
            >(SwapError::InsufficientLiquidity),
            swap_source_amount > 0 && swap_destination_amount > 0 && self.needs_timestamp()
                && timestamp is None ==> r == Err::<CurveResult, SwapError>(
                SwapError::MissingTimestamp,
            ),
            swap_source_amount > 0 && swap_destination_amount > 0 && !(self.needs_timestamp()
                && timestamp is None) && source_amount == 0 ==> r == Ok::<CurveResult, SwapError>(
                CurveResult {
                    source_amount_swapped: 0,
                    destination_amount_swapped: 0,
                    trade_fee: 0,
                    owner_fee: 0,
                },
            ),
    {
        if swap_source_amount == 0 || swap_destination_amount == 0 {
            return Err(SwapError::InsufficientLiquidity);
        }
        let ts: u128 = if self.requires_timestamp() {
            match timestamp {
                Some(t) => t,
                None => {
                    return Err(SwapError::MissingTimestamp);
                },
            }
        } else {
            0
        };
        if source_amount == 0 {
            return Ok(
                CurveResult {
                    source_amount_swapped: 0,
                    destination_amount_swapped: 0,
                    trade_fee: 0,
                    owner_fee: 0,
                },
            );
        }
        let (net, trade_fee, owner_fee) = match fees.apply_fees(source_amount) {
            Ok(v) => v,
            Err(e) => {
                return Err(e);
            },
        };
        match self {
            CurveCalculator::ConstantProduct => {
                let out = match Self::constant_product_swap(
                    net,
                    swap_source_amount,
                    swap_destination_amount,
                ) {
                    Ok(v) => v,
                    Err(e) => {
                        return Err(e);
                    },
                };
                Ok(
                    CurveResult {
                        source_amount_swapped: source_amount,
                        destination_amount_swapped: out,
                        trade_fee,
                        owner_fee,
                    },
                )
            },
            CurveCalculator::Stable { amp } => {
                let cp = match Self::constant_product_swap(
                    net,
                    swap_source_amount,
                    swap_destination_amount,
                ) {
                    Ok(v) => v,
                    Err(e) => {
                        return Err(e);
                    },
                };
                let cs = if net <= swap_destination_amount {
                    net
                } else {
                    swap_destination_amount
                };
                let amp_term = match (*amp as u128).checked_mul(cs) {
                    Some(v) => v,
                    None => {
                        return Err(SwapError::Overflow);
                    },
                };
                let total = match amp_term.checked_add(cp) {
                    Some(v) => v,
                    None => {
                        return Err(SwapError::Overflow);
                    },
                };
                let out = total / (*amp as u128 + 1);
                proof {
                    lemma_hybrid_bounds(
                        *amp as int,
                        net as int,
                        swap_source_amount as int,
                        swap_destination_amount as int,
                    );
                }
                Ok(
                    CurveResult {
                        source_amount_swapped: source_amount,
                        destination_amount_swapped: out,
                        trade_fee,
                        owner_fee,
                    },
                )
            },
            CurveCalculator::RedemptionRate {
                rate_numerator,
                rate_denominator,
                rate_accrual_per_second,
                reference_timestamp,
            } => {
                let elapsed: u128 = if ts >= *reference_timestamp as u128 {
                    ts - *reference_timestamp as u128
                } else {
                    0
                };
                let accrued = match (*rate_accrual_per_second as u128).checked_mul(elapsed) {
                    Some(v) => v,
                    None => {
                        return Err(SwapError::Overflow);
                    },
                };
                let eff = match (*rate_numerator as u128).checked_add(accrued) {
                    Some(v) => v,
                    None => {
                        return Err(SwapError::Overflow);
                    },
                };
                let product = match net.checked_mul(eff) {
                    Some(v) => v,
                    None => {
                        return Err(SwapError::Overflow);
                    },
                };
                let out = product / (*rate_denominator as u128);
                if out >= swap_destination_amount {
                    return Err(SwapError::InsufficientLiquidity);
                }
                Ok(
                    CurveResult {
                        source_amount_swapped: source_amount,
                        destination_amount_swapped: out,
                        trade_fee,
                        owner_fee,
                    },
                )
            },
        }
    }
}

/// Relates the ceiling division `(p + d - 1) / d` to floor division and
/// bounds it: multiplying it back by `d` covers `p`, and it is null only
/// when `p` is.
proof fn lemma_ceil_div(p: int, d: int)
    requires
        p >= 1,
        d >= 1,
    ensures
        (p + d - 1) / d == p / d + (if p % d > 0 {
            1int
        } else {
            0int
        }),
        d * ((p + d - 1) / d) >= p,
        (p + d - 1) / d >= 1,
{
    let q = p / d;
    let r = p % d;
    lemma_fundamental_div_mod(p, d);
    lemma_mod_division_less_than_divisor(p, d);
    lemma_div_pos_is_pos(p, d);
    if r == 0 {
        assert(p + d - 1 == (d - 1) + q * d) by {
            assert(d * q == q * d) by {
                lemma_mul_is_commutative(d, q);
            }
        }
        lemma_hoist_over_denominator(d - 1, q, d as nat);
        lemma_small_div_helper(d - 1, d);
        assert((p + d - 1) / d == q);
        assert(d * q == p);
        assert(q >= 1) by {
            if q == 0 {
                assert(d * 0 == 0);
            }
        }
    } else {
        assert(p + d - 1 == (r - 1) + (q + 1) * d) by {
            assert(d * q == q * d) by {
                lemma_mul_is_commutative(d, q);
            }
            assert((q + 1) * d == q * d + d) by (nonlinear_arith);
        }
        lemma_hoist_over_denominator(r - 1, q + 1, d as nat);
        lemma_small_div_helper(r - 1, d);
        assert((p + d - 1) / d == q + 1);
        assert(d * (q + 1) == d * q + d) by (nonlinear_arith);
        assert(d * (q + 1) >= p);
    }
}

/// A non-negative integer below the divisor divides to zero.
proof fn lemma_small_div_helper(x: int, d: int)
    requires
        0 <= x < d,
    ensures
        x / d == 0,
{
    lemma_basic_div(x, d);
}

/// The constant-product invariant law: for reserves `x, y >= 1` and a net
/// input `a >= 0`, the output `b` keeps the pool's invariant,
/// `x * y <= (x + a) * (y - b)`, and is strictly below the destination
/// reserve.
pub proof fn lemma_constant_product_invariant(a: int, x: int, y: int)
    requires
        0 <= a,
        1 <= x,
        1 <= y,
    ensures
        1 <= cp_new_destination(a, x, y) <= y,
        0 <= cp_output(a, x, y) < y,
        x * y <= (x + a) * (y - cp_output(a, x, y)),
{
    let p = x * y;
    let d = x + a;
    lemma_mul_strictly_positive(x, y);
    lemma_ceil_div(p, d);
    assert(p <= d * y) by {
        lemma_mul_inequality(x, d, y);
        lemma_mul_is_commutative(d, y);
    }
    assert(cp_new_destination(a, x, y) <= y) by {
        assert(p + d - 1 < d * (y + 1)) by {
            assert(d * (y + 1) == d * y + d) by (nonlinear_arith);
        }
        lemma_multiply_divide_lt(p + d - 1, d, y + 1);
    }
    assert((x + a) * (y - cp_output(a, x, y)) == d * cp_new_destination(a, x, y));
}

/// Helper: the ceiling of `p / d` is at most any `k` whose product with
/// `d` covers `p`.
proof fn lemma_ceil_le(p: int, d: int, k: int)
    requires
        p >= 0,
        d >= 1,
        k >= 0,
        p <= d * k,
    ensures
        (p + d - 1) / d <= k,
{
    assert(p + d - 1 < d * (k + 1)) by {
        assert(d * (k + 1) == d * k + d) by (nonlinear_arith);
    }
    lemma_multiply_divide_lt(p + d - 1, d, k + 1);
}

/// Constant-product monotonicity: a larger net input never yields a
/// smaller output.
pub proof fn lemma_cp_output_monotone(a1: int, a2: int, x: int, y: int)
    requires
        0 <= a1 <= a2,
        1 <= x,
        1 <= y,
    ensures
        cp_output(a1, x, y) <= cp_output(a2, x, y),
{
    let p = x * y;
    let d1 = x + a1;
    let d2 = x + a2;
    let c1 = cp_new_destination(a1, x, y);
    lemma_mul_strictly_positive(x, y);
    lemma_ceil_div(p, d1);
    assert(p <= d2 * c1) by {
        assert(d1 * c1 <= d2 * c1) by {
            lemma_mul_inequality(d1, d2, c1);
            lemma_mul_is_commutative(d1, c1);
            lemma_mul_is_commutative(d2, c1);
        }
    }
    lemma_ceil_le(p, d2, c1);
}

/// Amplified-hybrid monotonicity: a larger net input never yields a
/// smaller output.
pub proof fn lemma_hybrid_monotone(amp: int, a1: int, a2: int, x: int, y: int)
    requires
        1 <= amp,
        0 <= a1 <= a2,
        1 <= x,
        1 <= y,
    ensures
        hybrid_output(amp, a1, x, y) <= hybrid_output(amp, a2, x, y),
{
    let cs1 = cs_output(a1, y);
    let cs2 = cs_output(a2, y);
    lemma_cp_output_monotone(a1, a2, x, y);
    assert(amp * cs1 <= amp * cs2) by {
        lemma_mul_inequality(cs1, cs2, amp);
        lemma_mul_is_commutative(cs1, amp);
        lemma_mul_is_commutative(cs2, amp);
    }
    lemma_div_is_ordered(
        amp * cs1 + cp_output(a1, x, y),
        amp * cs2 + cp_output(a2, x, y),
        amp + 1,
    );
}

/// The monotonicity law: with the owner fee switched off, a larger gross
/// input never yields a smaller output, for every curve variant. (With two
/// independently floor-rounded fee components the net input itself can
/// shrink as the gross input grows, so the law is stated for schedules
/// whose owner component is zero.)
pub proof fn lemma_output_monotone(
    curve: CurveCalculator,
    fees: Fees,
    a1: int,
    a2: int,
    x: int,
    y: int,
    ts: int,
)
    requires
        curve.is_valid(),
        fees.is_valid(),
        fees.owner_trade_fee_numerator == 0,
        0 <= a1 <= a2,
        1 <= x,
        1 <= y,
    ensures
        curve.output_spec(fees.net_of(a1), x, y, ts) <= curve.output_spec(
            fees.net_of(a2),
            x,
            y,
            ts,
        ),
{
    crate::fees::lemma_net_monotone(fees, a1, a2);
    let n1 = fees.net_of(a1);
    let n2 = fees.net_of(a2);
    match curve {
        CurveCalculator::ConstantProduct => {
            lemma_cp_output_monotone(n1, n2, x, y);
        },
        CurveCalculator::Stable { amp } => {
            lemma_hybrid_monotone(amp as int, n1, n2, x, y);
        },
        CurveCalculator::RedemptionRate {
            rate_numerator,
            rate_denominator,
            rate_accrual_per_second,
            reference_timestamp,
        } => {
            let eff = rr_effective_numerator(
                rate_numerator as int,
                rate_accrual_per_second as int,
                reference_timestamp as int,
                ts,
            );
            lemma_mul_nonnegative(rate_accrual_per_second as int, rr_elapsed(reference_timestamp as int, ts));
            lemma_mul_inequality(n1, n2, eff);
            lemma_div_is_ordered(n1 * eff, n2 * eff, rate_denominator as int);
        },
    }
}

/// The direction-symmetry law for the constant-product curve: the swap
/// preserves the invariant in the executed direction; the reverse swap on
/// the updated reserves preserves it in the opposite direction; and a
/// round trip - sending the first output straight back - never returns
/// more than the original input.
pub proof fn lemma_cp_round_trip(a: int, x: int, y: int)
    requires
        0 <= a,
        1 <= x,
        1 <= y,
    ensures
        x * y <= (x + a) * (y - cp_output(a, x, y)),
        ({
            let b = cp_output(a, x, y);
            let c = cp_output(b, y - b, x + a);
            &&& (y - b) * (x + a) <= y * ((x + a) - c)
            &&& 0 <= c <= a
        }),
{
    lemma_constant_product_invariant(a, x, y);
    let b = cp_output(a, x, y);
    lemma_constant_product_invariant(b, y - b, x + a);
    let c = cp_output(b, y - b, x + a);
    assert((x + a) * (y - b) == (y - b) * (x + a)) by {
        lemma_mul_is_commutative(x + a, y - b);
    }
    assert((y - b) * (x + a) <= y * ((x + a) - c));
    assert(x * y <= y * ((x + a) - c));
    assert(x * y == y * x) by {
        lemma_mul_is_commutative(x, y);
    }
    assert(y * ((x + a) - c) == ((x + a) - c) * y) by {
        lemma_mul_is_commutative(y, (x + a) - c);
    }
    assert(x * y == x * y);
    lemma_mul_is_commutative(x, y);
    lemma_mul_inequality_converse(x, (x + a) - c, y);
}

/// Bounds of the amplified hybrid output: non-negative and strictly below
/// the destination reserve.
pub proof fn lemma_hybrid_bounds(amp: int, a: int, x: int, y: int)
    requires
        1 <= amp,
        0 <= a,
        1 <= x,
        1 <= y,
    ensures
        0 <= hybrid_output(amp, a, x, y) < y,
{
    let cs = cs_output(a, y);
    let cp = cp_output(a, x, y);
    lemma_constant_product_invariant(a, x, y);
    lemma_mul_nonnegative(amp, cs);
    lemma_div_pos_is_pos(amp * cs + cp, amp + 1);
    assert(amp * cs + cp < (amp + 1) * y) by {
        lemma_mul_inequality(cs, y, amp);
        lemma_mul_is_commutative(cs, amp);
        lemma_mul_is_commutative(y, amp);
        assert((amp + 1) * y == amp * y + y) by (nonlinear_arith);
    }
    lemma_multiply_divide_lt(amp * cs + cp, amp + 1, y);
}

} // verus!
