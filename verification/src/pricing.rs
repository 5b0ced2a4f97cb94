//! The arithmetic of the curve: what a trade moves through the virtual
//! reserves and what fee it carries, stated over mathematical integers.

use crate::state::BondingCurve;
use vstd::arithmetic::div_mod::{
    lemma_div_is_ordered, lemma_div_is_ordered_by_denominator, lemma_div_multiples_vanish,
    lemma_fundamental_div_mod, lemma_hoist_over_denominator, lemma_mod_bound,
};
use vstd::prelude::*;

verus! {

/// One whole, in basis points.
pub const BASIS_POINTS_SCALE: u64 = 10000;

/// The fee on `gross`: `gross × fee_basis_points / 10000`, rounded down.
pub open spec fn fee_on(gross: int, fee_basis_points: int) -> int {
    (gross * fee_basis_points) / (BASIS_POINTS_SCALE as int)
}

/// The virtual base-currency reserves that go with `token_reserves` virtual
/// tokens on the curve of the given product, rounded down.
pub open spec fn sol_reserves_at(product: int, token_reserves: int) -> int {
    product / token_reserves
}

/// One token costs strictly less at the first pair of virtual reserves than
/// at the second. The two ratios of base currency to tokens are compared
/// without dividing.
pub open spec fn price_below(sol_a: int, tokens_a: int, sol_b: int, tokens_b: int) -> bool {
    sol_a * tokens_b < sol_b * tokens_a
}

impl BondingCurve {
    /// Virtual base-currency reserves once `amount` tokens have been bought.
    pub open spec fn sol_reserves_after_buy(self, amount: int) -> int {
        sol_reserves_at(self.product(), self.virtual_token_reserves - amount)
    }

    /// Virtual base-currency reserves once `amount` tokens have been sold back.
    pub open spec fn sol_reserves_after_sell(self, amount: int) -> int {
        sol_reserves_at(self.product(), self.virtual_token_reserves + amount)
    }

    /// What buying `amount` tokens costs before the fee.
    pub open spec fn buy_sol_required(self, amount: int) -> int {
        self.sol_reserves_after_buy(amount) - self.virtual_sol_reserves
    }

    /// What selling `amount` tokens pays before the fee.
    pub open spec fn sell_sol_output(self, amount: int) -> int {
        self.virtual_sol_reserves - self.sol_reserves_after_sell(amount)
    }
}

/// Dividing a product by new token reserves and multiplying back loses less
/// than one divisor, and never gains.
pub proof fn lemma_division_keeps_product(product: int, token_reserves: int)
    requires
        0 < token_reserves,
    ensures
        product - token_reserves < sol_reserves_at(product, token_reserves) * token_reserves
            <= product,
{
    lemma_fundamental_div_mod(product, token_reserves);
    lemma_mod_bound(product, token_reserves);
    assert(token_reserves * (product / token_reserves) == (product / token_reserves)
        * token_reserves) by (nonlinear_arith);
}

/// On a curve of a fixed product, fewer tokens go with at least as much
/// base currency.
pub proof fn lemma_sol_reserves_antitone(product: int, fewer: int, more: int)
    requires
        0 <= product,
        0 < fewer <= more,
    ensures
        sol_reserves_at(product, fewer) >= sol_reserves_at(product, more),
{
    lemma_div_is_ordered_by_denominator(product, fewer, more);
}

/// Reserves that already sit on the curve are the ones the division returns.
pub proof fn lemma_sol_reserves_at_own_tokens(sol_reserves: int, token_reserves: int)
    requires
        0 < token_reserves,
    ensures
        sol_reserves_at(sol_reserves * token_reserves, token_reserves) == sol_reserves,
{
    lemma_div_multiples_vanish(sol_reserves, token_reserves);
    assert(token_reserves * sol_reserves == sol_reserves * token_reserves) by (nonlinear_arith);
}

/// A whole number whose multiple by the divisor fits under the dividend is
/// no more than the rounded-down quotient.
pub proof fn lemma_quotient_at_least(quotient: int, dividend: int, divisor: int)
    requires
        0 < divisor,
        quotient * divisor <= dividend,
    ensures
        quotient <= dividend / divisor,
{
    lemma_div_is_ordered(quotient * divisor, dividend, divisor);
    lemma_div_multiples_vanish(quotient, divisor);
    assert(divisor * quotient == quotient * divisor) by (nonlinear_arith);
}

/// Moving from `token_reserves` to `token_reserves - change` virtual tokens
/// on the curve through `(sol_reserves, token_reserves)` moves the virtual
/// base-currency reserves by `sol_reserves × change / (token_reserves -
/// change)`, rounded down. A negative change is tokens coming in.
pub proof fn lemma_sol_reserves_move(sol_reserves: int, token_reserves: int, change: int)
    requires
        change < token_reserves,
    ensures
        sol_reserves_at(sol_reserves * token_reserves, token_reserves - change) == sol_reserves
            + (sol_reserves * change) / (token_reserves - change),
{
    let left = token_reserves - change;
    lemma_hoist_over_denominator(sol_reserves * change, sol_reserves, left as nat);
    assert(sol_reserves * change + sol_reserves * left == sol_reserves * token_reserves)
        by (nonlinear_arith)
        requires
            left == token_reserves - change,
    ;
}

/// Taking tokens out never lowers the virtual base-currency reserves.
pub proof fn lemma_buy_cost_nonnegative(curve: BondingCurve, amount: int)
    requires
        0 <= amount < curve.virtual_token_reserves,
    ensures
        curve.buy_sol_required(amount) >= 0,
{
    let sol = curve.virtual_sol_reserves as int;
    let tokens = curve.virtual_token_reserves as int;
    assert(0 <= sol * tokens) by (nonlinear_arith)
        requires
            0 <= sol,
            0 <= tokens,
    ;
    lemma_sol_reserves_antitone(sol * tokens, tokens - amount, tokens);
    lemma_sol_reserves_at_own_tokens(sol, tokens);
}

/// Putting tokens in never raises the virtual base-currency reserves.
pub proof fn lemma_sell_output_nonnegative(curve: BondingCurve, amount: int)
    requires
        0 <= amount,
        0 < curve.virtual_token_reserves + amount,
    ensures
        0 <= curve.sell_sol_output(amount) <= curve.virtual_sol_reserves,
{
    let sol = curve.virtual_sol_reserves as int;
    let tokens = curve.virtual_token_reserves as int;
    assert(0 <= sol * tokens) by (nonlinear_arith)
        requires
            0 <= sol,
            0 <= tokens,
    ;
    if tokens > 0 {
        lemma_sol_reserves_antitone(sol * tokens, tokens, tokens + amount);
        lemma_sol_reserves_at_own_tokens(sol, tokens);
    } else {
        assert(sol * tokens == 0) by (nonlinear_arith)
            requires
                tokens == 0,
        ;
    }
    lemma_div_is_ordered(0, sol * tokens, tokens + amount);
}

} // verus!
