use vstd::prelude::*;
use vstd::arithmetic::div_mod::{
    lemma_div_is_ordered, lemma_div_multiples_vanish, lemma_div_of0, lemma_div_pos_is_pos,
    lemma_hoist_over_denominator,
};
use vstd::arithmetic::mul::{
    lemma_mul_inequality, lemma_mul_is_commutative, lemma_mul_nonnegative,
};
use crate::error::SwapError;

verus! {

/// Fixed-point fee schedule of a pool: a liquidity-provider trade fee and a
/// protocol (owner) trade fee, each a numerator/denominator pair.
///
/// A schedule is well formed when both denominators are non-zero and each
/// numerator is at most its denominator, so neither component alone exceeds
/// 100% of the traded amount.
#[derive(Clone, Copy, Debug, PartialEq, Eq, Structural)]
pub struct Fees {
    pub trade_fee_numerator: u64,
    pub trade_fee_denominator: u64,
    pub owner_trade_fee_numerator: u64,
    pub owner_trade_fee_denominator: u64,
}

/// The combined fee ratio of a schedule, kept as an exact rational for the
/// host to display or rank by; it never enters the monetary arithmetic.
#[derive(Clone, Copy, Debug, PartialEq, Eq, Structural)]
pub struct FeePct {
    pub numerator: u128,
    pub denominator: u64,
}

impl Fees {
    /// Well-formedness of the schedule.
    pub open spec fn is_valid(self) -> bool {
        &&& self.trade_fee_denominator > 0
        &&& self.owner_trade_fee_denominator > 0
        &&& self.trade_fee_numerator <= self.trade_fee_denominator
        &&& self.owner_trade_fee_numerator <= self.owner_trade_fee_denominator
    }

    /// The trade fee taken from a gross amount: floor(gross * num / den).
    pub open spec fn trade_fee_of(self, gross: int) -> int {
        gross * self.trade_fee_numerator / (self.trade_fee_denominator as int)
    }

    /// The owner fee taken from a gross amount: floor(gross * num / den).
    pub open spec fn owner_fee_of(self, gross: int) -> int {
        gross * self.owner_trade_fee_numerator / (self.owner_trade_fee_denominator as int)
    }

    /// What remains of a gross amount once both fees are taken.
    pub open spec fn net_of(self, gross: int) -> int {
        gross - self.trade_fee_of(gross) - self.owner_fee_of(gross)
    }

    /// Whether the schedule is well formed.
    pub fn is_well_formed(&self) -> (b: bool)
        ensures
            b == self.is_valid(),
    {
        self.trade_fee_denominator > 0 && self.owner_trade_fee_denominator > 0
            && self.trade_fee_numerator <= self.trade_fee_denominator
            && self.owner_trade_fee_numerator <= self.owner_trade_fee_denominator
    }

    /// Builds a schedule, rejecting an inconsistent one.
    pub fn new(
        trade_fee_numerator: u64,
        trade_fee_denominator: u64,
        owner_trade_fee_numerator: u64,
        owner_trade_fee_denominator: u64,
    ) -> (r: Result<Fees, SwapError>)
        ensures
            r is Ok <==> (trade_fee_denominator > 0 && owner_trade_fee_denominator > 0
                && trade_fee_numerator <= trade_fee_denominator
                && owner_trade_fee_numerator <= owner_trade_fee_denominator),
            r is Ok ==> r->Ok_0 == (Fees {
                trade_fee_numerator,
                trade_fee_denominator,
                owner_trade_fee_numerator,
                owner_trade_fee_denominator,
            }) && r->Ok_0.is_valid(),
            r is Err ==> r->Err_0 == SwapError::ConfigurationError,
    {
        if trade_fee_denominator == 0
            || owner_trade_fee_denominator == 0
            || trade_fee_numerator > trade_fee_denominator
            || owner_trade_fee_numerator > owner_trade_fee_denominator
        {
            Err(SwapError::ConfigurationError)
        } else {
            Ok(Fees {
                trade_fee_numerator,
                trade_fee_denominator,
                owner_trade_fee_numerator,
                owner_trade_fee_denominator,
            })
        }
    }

    /// The combined fee ratio (trade + owner) over the common denominator.
    ///
    /// The two components only share a ratio when their denominators agree;
    /// a schedule where they differ is reported as inconsistent rather than
    /// silently summed over mismatched scales.
    pub fn fee_pct(&self) -> (r: Result<FeePct, SwapError>)
        requires
            self.is_valid(),
        ensures
            r is Ok <==> self.trade_fee_denominator == self.owner_trade_fee_denominator,
            r is Ok ==> r->Ok_0 == (FeePct {
                numerator: (self.trade_fee_numerator + self.owner_trade_fee_numerator) as u128,
                denominator: self.trade_fee_denominator,
            }),
            r is Err ==> r->Err_0 == SwapError::ConfigurationError,
    {
        if self.trade_fee_denominator != self.owner_trade_fee_denominator {
            Err(SwapError::ConfigurationError)
        } else {
            Ok(FeePct {
                numerator: self.trade_fee_numerator as u128 + self.owner_trade_fee_numerator as u128,
                denominator: self.trade_fee_denominator,
            })
        }
    }

    /// Splits a gross amount into the net amount and the two fees.
    ///
    /// Exactly: trade fee + owner fee + net == gross, with each fee the
    /// floor of gross scaled by its ratio. Fails with `Overflow` when a
    /// scaling product leaves 128 bits, and with `ConfigurationError` when
    /// the two fees together would exceed the gross amount.
    pub fn apply_fees(&self, gross: u128) -> (r: Result<(u128, u128, u128), SwapError>)
        requires
            self.is_valid(),
        ensures
            r is Ok <==> {
                &&& gross * self.trade_fee_numerator <= u128::MAX
                &&& gross * self.owner_trade_fee_numerator <= u128::MAX
                &&& self.trade_fee_of(gross as int) + self.owner_fee_of(gross as int) <= gross
            },
            r is Ok ==> {
                let (net, trade_fee, owner_fee) = r->Ok_0;
                &&& trade_fee == self.trade_fee_of(gross as int)
                &&& owner_fee == self.owner_fee_of(gross as int)
                &&& net == self.net_of(gross as int)
                &&& trade_fee + owner_fee + net == gross
            },
            (gross * self.trade_fee_numerator > u128::MAX
                || gross * self.owner_trade_fee_numerator > u128::MAX)
                ==> r == Err::<(u128, u128, u128), SwapError>(SwapError::Overflow),
            (gross * self.trade_fee_numerator <= u128::MAX
                && gross * self.owner_trade_fee_numerator <= u128::MAX
                && self.trade_fee_of(gross as int) + self.owner_fee_of(gross as int) > gross)
                ==> r == Err::<(u128, u128, u128), SwapError>(SwapError::ConfigurationError),
            gross == 0 ==> r == Ok::<(u128, u128, u128), SwapError>((0u128, 0u128, 0u128)),
    {
        proof {
            lemma_fee_le_gross(gross as int, self.trade_fee_numerator as int,
                self.trade_fee_denominator as int);
            lemma_fee_le_gross(gross as int, self.owner_trade_fee_numerator as int,
                self.owner_trade_fee_denominator as int);
        }
        let trade_fee = match gross.checked_mul(self.trade_fee_numerator as u128) {
            Some(p) => p / (self.trade_fee_denominator as u128),
            None => {
                return Err(SwapError::Overflow);
            },
        };
        let owner_fee = match gross.checked_mul(self.owner_trade_fee_numerator as u128) {
            Some(p) => p / (self.owner_trade_fee_denominator as u128),
            None => {
                return Err(SwapError::Overflow);
            },
        };
        if trade_fee > gross - owner_fee {
            return Err(SwapError::ConfigurationError);
        }
        let net = gross - trade_fee - owner_fee;
        Ok((net, trade_fee, owner_fee))
    }
}

/// With the owner fee switched off, taking the trade fee is monotone: a
/// larger gross amount never leaves a smaller net amount. (With two
/// independently floor-rounded fee components this can fail: when both
/// components are one half, a gross of 1 nets 1 but a gross of 2 nets 0.)
pub proof fn lemma_net_monotone(fees: Fees, a1: int, a2: int)
    requires
        fees.is_valid(),
        fees.owner_trade_fee_numerator == 0,
        0 <= a1 <= a2,
    ensures
        0 <= fees.net_of(a1) <= fees.net_of(a2),
{
    let n = fees.trade_fee_numerator as int;
    let d = fees.trade_fee_denominator as int;
    let od = fees.owner_trade_fee_denominator as int;
    lemma_div_of0(od);
    assert(a1 * 0 == 0);
    assert(a2 * 0 == 0);
    lemma_fee_le_gross(a1, n, d);
    lemma_fee_le_gross(a2, n, d);
    assert(a2 * n == a1 * n + (a2 - a1) * n) by (nonlinear_arith);
    assert((a2 - a1) * n <= (a2 - a1) * d) by {
        lemma_mul_inequality(n, d, a2 - a1);
        lemma_mul_is_commutative(n, a2 - a1);
        lemma_mul_is_commutative(d, a2 - a1);
    }
    lemma_div_is_ordered(a2 * n, a1 * n + (a2 - a1) * d, d);
    lemma_hoist_over_denominator(a1 * n, a2 - a1, d as nat);
    assert(a2 * n / d <= a1 * n / d + (a2 - a1));
}

/// A floor-rounded fee never exceeds the amount it is taken from.
pub proof fn lemma_fee_le_gross(gross: int, num: int, den: int)
    requires
        0 <= gross,
        0 <= num <= den,
        0 < den,
    ensures
        0 <= gross * num / den <= gross,
{
    lemma_mul_nonnegative(gross, num);
    lemma_div_pos_is_pos(gross * num, den);
    lemma_mul_inequality(num, den, gross);
    assert(gross * num <= gross * den);
    lemma_div_is_ordered(gross * num, gross * den, den);
    lemma_div_multiples_vanish(gross, den);
    assert(den * gross / den == gross);
}

} // verus!
