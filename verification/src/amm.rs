use vstd::prelude::*;
use crate::curve::{CurveCalculator, TradeDirection};
use crate::error::SwapError;
use crate::fees::{FeePct, Fees};
use crate::swap_curve_info::get_swap_curve_result;

verus! {

/// A 32-byte account or mint identifier, as the host chain uses.
#[derive(Clone, Copy, Debug)]
pub struct AccountId {
    pub bytes: [u8; 32],
}

impl AccountId {
    /// Byte-for-byte equality with another identifier.
    pub fn same_as(&self, other: &AccountId) -> (r: bool)
        ensures
            r == (self.bytes@ == other.bytes@),
    {
        let mut i: usize = 0;
        while i < 32
            invariant
                0 <= i <= 32,
                forall|j: int| 0 <= j < i ==> self.bytes@[j] == other.bytes@[j],
            decreases 32 - i,
        {
            if self.bytes[i] != other.bytes[i] {
                return false;
            }
            i = i + 1;
        }
        proof {
            assert(self.bytes@ =~= other.bytes@);
        }
        true
    }
}

/// Immutable-after-initialization descriptor of a pool: its reserve
/// accounts, mints, fee account, fee schedule and curve, decoded from
/// on-chain state by the host and fixed for the pool's lifetime.
#[derive(Clone, Copy, Debug)]
pub struct PoolState {
    pub token_a: AccountId,
    pub token_b: AccountId,
    pub pool_mint: AccountId,
    pub token_a_mint: AccountId,
    pub token_b_mint: AccountId,
    pub pool_fee_account: AccountId,
    pub fees: Fees,
    pub swap_curve: CurveCalculator,
}

/// One quote request: which asset is sold, how much, and (for the
/// time-dependent curve) the present timestamp.
#[derive(Clone, Copy, Debug)]
pub struct TradeRequest {
    pub input_mint: AccountId,
    pub amount: u64,
    pub timestamp: Option<u128>,
}

/// The computed result of a hypothetical trade, for route comparison.
#[derive(Clone, Copy, Debug)]
pub struct Quote {
    pub fee_pct: FeePct,
    pub in_amount: u64,
    pub out_amount: u64,
    pub fee_amount: u64,
    pub fee_mint: AccountId,
}

/// What the execution layer must know to build the swap instruction:
/// the accounts the host resolved (authority and token program are
/// derived by the host's marshalling layer) plus the trade's source and
/// destination accounts.
#[derive(Clone, Copy, Debug)]
pub struct SwapParams {
    pub token_transfer_authority: AccountId,
    pub source_token_account: AccountId,
    pub destination_token_account: AccountId,
    pub source_mint: AccountId,
    pub token_program: AccountId,
    pub authority: AccountId,
}

/// The ordered account set of a swap instruction, with one field per role.
#[derive(Clone, Copy, Debug)]
pub struct SwapAccounts {
    pub token_swap_program: AccountId,
    pub token_program: AccountId,
    pub swap: AccountId,
    pub authority: AccountId,
    pub user_transfer_authority: AccountId,
    pub source: AccountId,
    pub destination: AccountId,
    pub pool_mint: AccountId,
    pub pool_fee: AccountId,
    pub swap_source: AccountId,
    pub swap_destination: AccountId,
}

/// Adapter for one pool: holds the pool's identity and descriptor and a
/// cached snapshot of the two reserve balances, and answers quote
/// requests against that snapshot.
///
/// The adapter is a plain value: copying it yields an independent
/// snapshot, and refreshing one copy never affects another.
#[derive(Clone, Copy, Debug)]
pub struct NovaPsmAmm {
    pub key: AccountId,
    pub state: PoolState,
    pub reserve_mints: [AccountId; 2],
    pub reserves: [u128; 2],
    pub program_id: AccountId,
}

impl NovaPsmAmm {
    /// Internal consistency: the fee schedule and curve are well formed
    /// and the cached mint pair mirrors the descriptor.
    pub open spec fn well_formed(self) -> bool {
        &&& self.state.fees.is_valid()
        &&& self.state.swap_curve.is_valid()
        &&& self.reserve_mints@ == seq![self.state.token_a_mint, self.state.token_b_mint]
    }

    /// The full mathematical model of `quote`: direction resolution,
    /// curve evaluation, fee-ratio formation and 64-bit narrowing.
    pub open spec fn quote_spec(self, request: TradeRequest) -> Result<
        (int, int, int, FeePct),
        SwapError,
    > {
        let a_match = request.input_mint.bytes@ == self.reserve_mints@[0].bytes@;
        let b_match = request.input_mint.bytes@ == self.reserve_mints@[1].bytes@;
        if !a_match && !b_match {
            Err(SwapError::UnknownAsset)
        } else {
            let src = if a_match {
                self.reserves@[0]
            } else {
                self.reserves@[1]
            };
            let dst = if a_match {
                self.reserves@[1]
            } else {
                self.reserves@[0]
            };
            match self.state.swap_curve.swap_spec(
                request.amount as int,
                src as int,
                dst as int,
                self.state.fees,
                request.timestamp,
            ) {
                Err(e) => Err(e),
                Ok((consumed, out, trade_fee, owner_fee)) => {
                    if self.state.fees.trade_fee_denominator
                        != self.state.fees.owner_trade_fee_denominator {
                        Err(SwapError::ConfigurationError)
                    } else if out > u64::MAX {
                        Err(SwapError::Overflow)
                    } else {
                        Ok(
                            (
                                consumed,
                                out,
                                trade_fee + owner_fee,
                                FeePct {
                                    numerator: (self.state.fees.trade_fee_numerator
                                        + self.state.fees.owner_trade_fee_numerator) as u128,
                                    denominator: self.state.fees.trade_fee_denominator,
                                },
                            ),
                        )
                    }
                },
            }
        }
    }

    /// Builds an adapter from a decoded pool descriptor, with empty
    /// reserves until the first refresh. Rejects a descriptor whose fee
    /// schedule or curve parameters are inconsistent.
    pub fn new(key: AccountId, program_id: AccountId, state: PoolState) -> (r: Result<
        NovaPsmAmm,
        SwapError,
    >)
        ensures
            r is Ok <==> state.fees.is_valid() && state.swap_curve.is_valid(),
            r is Err ==> r->Err_0 == SwapError::ConfigurationError,
            r is Ok ==> {
                &&& r->Ok_0.key == key
                &&& r->Ok_0.program_id == program_id
                &&& r->Ok_0.state == state
                &&& r->Ok_0.reserves@ == seq![0u128, 0u128]
                &&& r->Ok_0.well_formed()
            },
    {
        if !state.fees.is_well_formed() || !state.swap_curve.is_well_formed() {
            return Err(SwapError::ConfigurationError);
        }
        let amm = NovaPsmAmm {
            key,
            state,
            reserve_mints: [state.token_a_mint, state.token_b_mint],
            reserves: [0, 0],
            program_id,
        };
        proof {
            assert(amm.reserve_mints@ =~= seq![state.token_a_mint, state.token_b_mint]);
            assert(amm.reserves@ =~= seq![0u128, 0u128]);
        }
        Ok(amm)
    }

    /// A human-readable label of the underlying venue.
    pub fn label(&self) -> (r: &'static str)
        ensures
            r@ == "NOVA PSM"@,
    {
        "NOVA PSM"
    }

    /// The program that owns the pool.
    pub fn program_id(&self) -> (r: AccountId)
        ensures
            r == self.program_id,
    {
        self.program_id
    }

    /// The pool state address.
    pub fn key(&self) -> (r: AccountId)
        ensures
            r == self.key,
    {
        self.key
    }

    /// The mints that can be traded, in slot order.
    pub fn get_reserve_mints(&self) -> (r: Vec<AccountId>)
        ensures
            r@ == self.reserve_mints@,
    {
        let mut v: Vec<AccountId> = Vec::new();
        v.push(self.reserve_mints[0]);
        v.push(self.reserve_mints[1]);
        proof {
            assert(v@ =~= self.reserve_mints@);
        }
        v
    }

    /// The accounts whose balances a refresh must supply, in slot order.
    pub fn get_accounts_to_update(&self) -> (r: Vec<AccountId>)
        ensures
            r@ == seq![self.state.token_a, self.state.token_b],
    {
        let mut v: Vec<AccountId> = Vec::new();
        v.push(self.state.token_a);
        v.push(self.state.token_b);
        proof {
            assert(v@ =~= seq![self.state.token_a, self.state.token_b]);
        }
        v
    }

    /// Overwrites the cached reserve snapshot wholesale with freshly
    /// decoded balances; nothing else changes.
    pub fn update(&mut self, token_a_amount: u64, token_b_amount: u64)
        ensures
            *final(self) == (NovaPsmAmm {
                reserves: final(self).reserves,
                ..*old(self)
            }),
            final(self).reserves@ == seq![token_a_amount as u128, token_b_amount as u128],
    {
        self.reserves = [token_a_amount as u128, token_b_amount as u128];
        proof {
            assert(self.reserves@ =~= seq![token_a_amount as u128, token_b_amount as u128]);
        }
    }

    /// Quotes a proposed trade against the cached snapshot.
    ///
    /// The direction is resolved by matching the requested input mint
    /// against the pool's two mints (neither matching is `UnknownAsset`);
    /// the curve is then evaluated with the matching reserve as source,
    /// and the result is narrowed to the caller's 64-bit amounts. The
    /// whole behaviour, case by case, is `quote_spec`.
    pub fn quote(&self, request: &TradeRequest) -> (r: Result<Quote, SwapError>)
        requires
            self.well_formed(),
        ensures
            ({
                let s = self.quote_spec(*request);
                &&& (r is Ok <==> s is Ok)
                &&& (r is Err ==> s is Err && r->Err_0 == s->Err_0)
                &&& (r is Ok ==> {
                    &&& r->Ok_0.in_amount as int == s->Ok_0.0
                    &&& r->Ok_0.out_amount as int == s->Ok_0.1
                    &&& r->Ok_0.fee_amount as int == s->Ok_0.2
                    &&& r->Ok_0.fee_pct == s->Ok_0.3
                    &&& r->Ok_0.fee_mint == request.input_mint
                })
            }),
    {
        let (trade_direction, swap_source_amount, swap_destination_amount) = if request.input_mint
            .same_as(&self.reserve_mints[0]) {
            (TradeDirection::AtoB, self.reserves[0], self.reserves[1])
        } else if request.input_mint.same_as(&self.reserve_mints[1]) {
            (TradeDirection::BtoA, self.reserves[1], self.reserves[0])
        } else {
            return Err(SwapError::UnknownAsset);
        };
        let swap_result = match get_swap_curve_result(
            &self.state.swap_curve,
            request.amount,
            swap_source_amount,
            swap_destination_amount,
            trade_direction,
            &self.state.fees,
            request.timestamp,
        ) {
            Ok(v) => v,
            Err(e) => {
                return Err(e);
            },
        };
        if swap_result.expected_output_amount > u64::MAX as u128 {
            return Err(SwapError::Overflow);
        }
        Ok(
            Quote {
                fee_pct: swap_result.fee_pct,
                in_amount: request.amount,
                out_amount: swap_result.expected_output_amount as u64,
                fee_amount: swap_result.fees as u64,
                fee_mint: request.input_mint,
            },
        )
    }

    /// Produces the account set of the swap instruction: a pure data
    /// transformation with no computation. The host supplies the derived
    /// pool authority and the token program in `params`.
    pub fn get_swap_and_account_metas(&self, params: &SwapParams) -> (r: SwapAccounts)
        ensures
            r.token_swap_program == self.program_id,
            r.token_program == params.token_program,
            r.swap == self.key,
            r.authority == params.authority,
            r.user_transfer_authority == params.token_transfer_authority,
            r.source == params.source_token_account,
            r.destination == params.destination_token_account,
            r.pool_mint == self.state.pool_mint,
            r.pool_fee == self.state.pool_fee_account,
            params.source_mint.bytes@ == self.state.token_a_mint.bytes@ ==> r.swap_source
                == self.state.token_a && r.swap_destination == self.state.token_b,
            params.source_mint.bytes@ != self.state.token_a_mint.bytes@ ==> r.swap_source
                == self.state.token_b && r.swap_destination == self.state.token_a,
    {
        let (swap_source, swap_destination) = if params.source_mint.same_as(
            &self.state.token_a_mint,
        ) {
            (self.state.token_a, self.state.token_b)
        } else {
            (self.state.token_b, self.state.token_a)
        };
        SwapAccounts {
            token_swap_program: self.program_id,
            token_program: params.token_program,
            swap: self.key,
            authority: params.authority,
            user_transfer_authority: params.token_transfer_authority,
            source: params.source_token_account,
            destination: params.destination_token_account,
            pool_mint: self.state.pool_mint,
            pool_fee: self.state.pool_fee_account,
            swap_source,
            swap_destination,
        }
    }

    /// The account set of a pool is fixed for its lifetime.
    pub fn has_dynamic_accounts(&self) -> (r: bool)
        ensures
            !r,
    {
        false
    }

    /// The mint pair is known without a prior refresh.
    pub fn requires_update_for_reserve_mints(&self) -> (r: bool)
        ensures
            !r,
    {
        false
    }

    /// The curve family is defined for exact-input quoting only.
    pub fn supports_exact_out(&self) -> (r: bool)
        ensures
            !r,
    {
        false
    }

    /// A conservative account count for transaction sizing.
    pub fn get_accounts_len(&self) -> (r: usize)
        ensures
            r == 32,
    {
        32
    }
}

/// The zero-input law: a quote for a zero input amount yields a zero
/// output and zero fees, for every curve variant, whenever the pool can
/// quote at all (a known input mint, both reserves non-empty, a timestamp
/// present where the curve needs one, and a coherent fee schedule).
pub proof fn lemma_zero_input_quote(amm: NovaPsmAmm, request: TradeRequest)
    requires
        amm.well_formed(),
        request.amount == 0,
        request.input_mint.bytes@ == amm.reserve_mints@[0].bytes@ || request.input_mint.bytes@
            == amm.reserve_mints@[1].bytes@,
        amm.reserves@[0] > 0,
        amm.reserves@[1] > 0,
        amm.state.swap_curve.needs_timestamp() ==> request.timestamp is Some,
        amm.state.fees.trade_fee_denominator == amm.state.fees.owner_trade_fee_denominator,
    ensures
        amm.quote_spec(request) is Ok,
        amm.quote_spec(request)->Ok_0.0 == 0,
        amm.quote_spec(request)->Ok_0.1 == 0,
        amm.quote_spec(request)->Ok_0.2 == 0,
{
}

} // verus!
