//! The two transitions of a curve: buying tokens out of it and selling them
//! back. Each either applies in full or rejects and leaves the curve as it was.

use crate::error::PumpError;
use crate::pricing::{
    fee_on, lemma_buy_cost_nonnegative, lemma_division_keeps_product,
    lemma_sell_output_nonnegative, BASIS_POINTS_SCALE,
};
use crate::state::{BondingCurve, Global};
use vstd::prelude::*;

verus! {

/// What a successful trade settles.
#[derive(Clone, Copy, Debug, PartialEq, Eq, Structural)]
pub struct Quote {
    /// Tokens that change hands.
    pub token_amount: u64,
    /// Base currency that moves through the reserves, before the fee.
    pub sol_amount: u64,
    /// Fee on `sol_amount`.
    pub fee: u64,
    /// Base currency the trader pays (buy) or receives (sell).
    pub sol_settled: u64,
}

/// A trade request as it reaches a curve. Contracts and laws speak of
/// requests of both kinds through this one type.
pub enum Order {
    Buy { amount: u64, max_sol_cost: u64 },
    Sell { amount: u64, min_sol_output: u64 },
}

impl BondingCurve {
    /// Why a buy is rejected, if it is. The checks come in this order.
    pub open spec fn buy_rejection(
        self,
        global: Global,
        amount: u64,
        max_sol_cost: u64,
    ) -> Option<PumpError> {
        let sol_required: int = self.buy_sol_required(amount as int);
        let fee: int = fee_on(sol_required, global.fee_basis_points as int);
        if self.complete {
            Some(PumpError::BondingCurveComplete)
        } else if self.product() > u64::MAX {
            Some(PumpError::Overflow)
        } else if amount >= self.virtual_token_reserves {
            Some(PumpError::InsufficientTokens)
        } else if sol_required * global.fee_basis_points > u64::MAX {
            Some(PumpError::Overflow)
        } else if sol_required + fee > u64::MAX {
            Some(PumpError::Overflow)
        } else if sol_required + fee > max_sol_cost {
            Some(PumpError::SlippageExceeded)
        } else if amount > self.real_token_reserves {
            Some(PumpError::Overflow)
        } else if self.real_sol_reserves + sol_required > u64::MAX {
            Some(PumpError::Overflow)
        } else {
            None
        }
    }

    /// What a buy of `amount` tokens settles when it is accepted.
    pub open spec fn buy_quote(self, global: Global, amount: u64) -> Quote {
        let sol_required: int = self.buy_sol_required(amount as int);
        let fee: int = fee_on(sol_required, global.fee_basis_points as int);
        Quote {
            token_amount: amount,
            sol_amount: sol_required as u64,
            fee: fee as u64,
            sol_settled: (sol_required + fee) as u64,
        }
    }

    /// The curve after an accepted buy of `amount` tokens.
    pub open spec fn after_buy(self, global: Global, amount: u64) -> BondingCurve {
        let sol_required: int = self.buy_sol_required(amount as int);
        BondingCurve {
            virtual_token_reserves: (self.virtual_token_reserves - amount) as u64,
            virtual_sol_reserves: self.sol_reserves_after_buy(amount as int) as u64,
            real_token_reserves: (self.real_token_reserves - amount) as u64,
            real_sol_reserves: (self.real_sol_reserves + sol_required) as u64,
            token_total_supply: self.token_total_supply,
            complete: self.real_sol_reserves + sol_required >= global.migration_threshold,
            creator: self.creator,
        }
    }

    /// Why a sell is rejected, if it is. The checks come in this order.
    pub open spec fn sell_rejection(
        self,
        global: Global,
        amount: u64,
        min_sol_output: u64,
    ) -> Option<PumpError> {
        let sol_output: int = self.sell_sol_output(amount as int);
        let fee: int = fee_on(sol_output, global.fee_basis_points as int);
        if self.complete {
            Some(PumpError::BondingCurveComplete)
        } else if self.product() > u64::MAX {
            Some(PumpError::Overflow)
        } else if self.virtual_token_reserves + amount > u64::MAX {
            Some(PumpError::Overflow)
        } else if self.virtual_token_reserves + amount == 0 {
            Some(PumpError::InvalidCalculation)
        } else if sol_output * global.fee_basis_points > u64::MAX {
            Some(PumpError::Overflow)
        } else if fee > sol_output {
            Some(PumpError::Overflow)
        } else if sol_output - fee < min_sol_output {
            Some(PumpError::SlippageExceeded)
        } else if self.real_token_reserves + amount > self.token_total_supply {
            Some(PumpError::Overflow)
        } else if sol_output > self.real_sol_reserves {
            Some(PumpError::Overflow)
        } else {
            None
        }
    }

    /// What a sell of `amount` tokens settles when it is accepted.
    pub open spec fn sell_quote(self, global: Global, amount: u64) -> Quote {
        let sol_output: int = self.sell_sol_output(amount as int);
        let fee: int = fee_on(sol_output, global.fee_basis_points as int);
        Quote {
            token_amount: amount,
            sol_amount: sol_output as u64,
            fee: fee as u64,
            sol_settled: (sol_output - fee) as u64,
        }
    }

    /// The curve after an accepted sell of `amount` tokens.
    pub open spec fn after_sell(self, amount: u64) -> BondingCurve {
        BondingCurve {
            virtual_token_reserves: (self.virtual_token_reserves + amount) as u64,
            virtual_sol_reserves: self.sol_reserves_after_sell(amount as int) as u64,
            real_token_reserves: (self.real_token_reserves + amount) as u64,
            real_sol_reserves: (self.real_sol_reserves - self.sell_sol_output(amount as int)) as u64,
            token_total_supply: self.token_total_supply,
            complete: self.complete,
            creator: self.creator,
        }
    }

    /// Why the order is rejected, if it is.
    pub open spec fn rejection(self, global: Global, order: Order) -> Option<PumpError> {
        match order {
            Order::Buy { amount, max_sol_cost } => self.buy_rejection(global, amount, max_sol_cost),
            Order::Sell { amount, min_sol_output } => self.sell_rejection(
                global,
                amount,
                min_sol_output,
            ),
        }
    }

    /// The curve once the order has been attempted: moved if the order is
    /// accepted, as it was if the order is rejected.
    pub open spec fn attempt(self, global: Global, order: Order) -> BondingCurve {
        if self.rejection(global, order) is Some {
            self
        } else {
            match order {
                Order::Buy { amount, .. } => self.after_buy(global, amount),
                Order::Sell { amount, .. } => self.after_sell(amount),
            }
        }
    }

    /// The curve once every order has been attempted, in turn.
    pub open spec fn replay(self, global: Global, orders: Seq<Order>) -> BondingCurve
        decreases orders.len(),
    {
        if orders.len() == 0 {
            self
        } else {
            self.replay(global, orders.drop_last()).attempt(global, orders.last())
        }
    }
}

/// Buys `amount` tokens out of the curve for at most `max_sol_cost`.
///
/// The cost before the fee is what restores the product of the virtual
/// reserves once `amount` tokens have left, rounded down; the fee is the
/// rounded-down share of that cost and is added on top. The real reserves
/// take in the cost before the fee. The curve completes when its real
/// base-currency reserves reach the policy's migration threshold.
///
/// Rejected, with the curve left as it was, for the first of these that
/// applies:
/// - `BondingCurveComplete`: the curve is complete;
/// - `Overflow`: the product of the virtual reserves leaves the 64-bit range;
/// - `InsufficientTokens`: `amount` meets or exceeds the virtual token
///   reserves;
/// - `Overflow`: the cost times the fee rate, or the cost plus the fee,
///   leaves the 64-bit range;
/// - `SlippageExceeded`: the cost plus the fee exceeds `max_sol_cost`;
/// - `Overflow`: `amount` exceeds the real token reserves, or the real
///   base-currency reserves would leave the 64-bit range.
pub fn buy(curve: &mut BondingCurve, global: &Global, amount: u64, max_sol_cost: u64) -> (result:
    Result<Quote, PumpError>)
    ensures
        match result {
            Ok(quote) => {
                &&& old(curve).buy_rejection(*global, amount, max_sol_cost) is None
                &&& quote == old(curve).buy_quote(*global, amount)
                &&& *final(curve) == old(curve).after_buy(*global, amount)
            },
            Err(e) => {
                &&& old(curve).buy_rejection(*global, amount, max_sol_cost) == Some(e)
                &&& *final(curve) == *old(curve)
            },
        },
        result is Ok ==> old(curve).product() - final(curve).virtual_token_reserves
            < final(curve).product(),
        result is Ok ==> final(curve).product() <= old(curve).product(),
        result matches Ok(quote) ==> quote.sol_settled - quote.sol_amount == quote.fee
            && quote.fee == fee_on(quote.sol_amount as int, global.fee_basis_points as int),
        result is Ok ==> (final(curve).complete <==> final(curve).real_sol_reserves
            >= global.migration_threshold),
        old(curve).well_formed(*global) ==> final(curve).well_formed(*global),
        *final(curve) == old(curve).attempt(*global, (Order::Buy { amount, max_sol_cost })),
{
    if curve.complete {
        return Err(PumpError::BondingCurveComplete);
    }
    let k: u64 = curve.virtual_sol_reserves.checked_mul(curve.virtual_token_reserves).ok_or(
        PumpError::Overflow,
    )?;
    let new_virtual_token_reserves: u64 = curve.virtual_token_reserves.checked_sub(amount).ok_or(
        PumpError::InsufficientTokens,
    )?;
    if new_virtual_token_reserves == 0 {
        return Err(PumpError::InsufficientTokens);
    }
    proof {
        lemma_buy_cost_nonnegative(*curve, amount as int);
        lemma_division_keeps_product(curve.product(), new_virtual_token_reserves as int);
    }
    let new_virtual_sol_reserves: u64 = k.checked_div(new_virtual_token_reserves).ok_or(
        PumpError::InvalidCalculation,
    )?;
    let sol_required: u64 = new_virtual_sol_reserves.checked_sub(curve.virtual_sol_reserves).ok_or(
        PumpError::InvalidCalculation,
    )?;
    let fee: u64 = sol_required.checked_mul(global.fee_basis_points).ok_or(
        PumpError::Overflow,
    )?.checked_div(BASIS_POINTS_SCALE).ok_or(PumpError::InvalidCalculation)?;
    let total_sol_cost: u64 = sol_required.checked_add(fee).ok_or(PumpError::Overflow)?;
    if total_sol_cost > max_sol_cost {
        return Err(PumpError::SlippageExceeded);
    }
    let new_real_token_reserves: u64 = curve.real_token_reserves.checked_sub(amount).ok_or(
        PumpError::Overflow,
    )?;
    let new_real_sol_reserves: u64 = curve.real_sol_reserves.checked_add(sol_required).ok_or(
        PumpError::Overflow,
    )?;

    curve.virtual_token_reserves = new_virtual_token_reserves;
    curve.virtual_sol_reserves = new_virtual_sol_reserves;
    curve.real_token_reserves = new_real_token_reserves;
    curve.real_sol_reserves = new_real_sol_reserves;
    if new_real_sol_reserves >= global.migration_threshold {
        curve.complete = true;
    }
    Ok(Quote { token_amount: amount, sol_amount: sol_required, fee, sol_settled: total_sol_cost })
}

/// Sells `amount` tokens back to the curve for at least `min_sol_output`.
///
/// The payout before the fee is what restores the product of the virtual
/// reserves once `amount` tokens have come back, the new virtual
/// base-currency reserves being rounded down; the fee is the rounded-down
/// share of that payout and is taken off it. The real reserves give up the
/// payout before the fee. A sell never completes a curve.
///
/// Rejected, with the curve left as it was, for the first of these that
/// applies:
/// - `BondingCurveComplete`: the curve is complete;
/// - `Overflow`: the product of the virtual reserves, or the virtual token
///   reserves plus `amount`, leaves the 64-bit range;
/// - `InvalidCalculation`: the virtual token reserves plus `amount` are zero;
/// - `Overflow`: the payout times the fee rate leaves the 64-bit range, or
///   the fee exceeds the payout;
/// - `SlippageExceeded`: the payout minus the fee is less than
///   `min_sol_output`;
/// - `Overflow`: the real token reserves would exceed the total supply, or
///   the payout before the fee exceeds the real base-currency reserves.
///
/// The total supply is the upper end of the range of the real token
/// reserves, so a sale that would pass it is reported as `Overflow`, like
/// every other step that leaves its range.
pub fn sell(curve: &mut BondingCurve, global: &Global, amount: u64, min_sol_output: u64) -> (result:
    Result<Quote, PumpError>)
    ensures
        match result {
            Ok(quote) => {
                &&& old(curve).sell_rejection(*global, amount, min_sol_output) is None
                &&& quote == old(curve).sell_quote(*global, amount)
                &&& *final(curve) == old(curve).after_sell(amount)
            },
            Err(e) => {
                &&& old(curve).sell_rejection(*global, amount, min_sol_output) == Some(e)
                &&& *final(curve) == *old(curve)
            },
        },
        result is Ok ==> old(curve).product() - final(curve).virtual_token_reserves
            < final(curve).product(),
        result is Ok ==> final(curve).product() <= old(curve).product(),
        result matches Ok(quote) ==> quote.sol_amount - quote.sol_settled == quote.fee
            && quote.fee == fee_on(quote.sol_amount as int, global.fee_basis_points as int),
        result is Ok ==> final(curve).supply_bounded(),
        old(curve).completion_tracks_threshold(*global)
            ==> final(curve).completion_tracks_threshold(*global),
        old(curve).well_formed(*global) ==> final(curve).well_formed(*global),
        *final(curve) == old(curve).attempt(*global, (Order::Sell { amount, min_sol_output })),
{
    if curve.complete {
        return Err(PumpError::BondingCurveComplete);
    }
    let k: u64 = curve.virtual_sol_reserves.checked_mul(curve.virtual_token_reserves).ok_or(
        PumpError::Overflow,
    )?;
    let new_virtual_token_reserves: u64 = curve.virtual_token_reserves.checked_add(amount).ok_or(
        PumpError::Overflow,
    )?;
    let new_virtual_sol_reserves: u64 = k.checked_div(new_virtual_token_reserves).ok_or(
        PumpError::InvalidCalculation,
    )?;
    proof {
        lemma_sell_output_nonnegative(*curve, amount as int);
        lemma_division_keeps_product(curve.product(), new_virtual_token_reserves as int);
    }
    let sol_output: u64 = curve.virtual_sol_reserves.checked_sub(new_virtual_sol_reserves).ok_or(
        PumpError::InvalidCalculation,
    )?;
    let fee: u64 = sol_output.checked_mul(global.fee_basis_points).ok_or(
        PumpError::Overflow,
    )?.checked_div(BASIS_POINTS_SCALE).ok_or(PumpError::InvalidCalculation)?;
    let net_sol_output: u64 = sol_output.checked_sub(fee).ok_or(PumpError::Overflow)?;
    if net_sol_output < min_sol_output {
        return Err(PumpError::SlippageExceeded);
    }
    let new_real_token_reserves: u64 = curve.real_token_reserves.checked_add(amount).ok_or(
        PumpError::Overflow,
    )?;
    if new_real_token_reserves > curve.token_total_supply {
        return Err(PumpError::Overflow);
    }
    let new_real_sol_reserves: u64 = curve.real_sol_reserves.checked_sub(sol_output).ok_or(
        PumpError::Overflow,
    )?;

    curve.virtual_token_reserves = new_virtual_token_reserves;
    curve.virtual_sol_reserves = new_virtual_sol_reserves;
    curve.real_token_reserves = new_real_token_reserves;
    curve.real_sol_reserves = new_real_sol_reserves;
    Ok(Quote { token_amount: amount, sol_amount: sol_output, fee, sol_settled: net_sol_output })
}

} // verus!
