//! What holds of every curve, every trade and every sequence of trades.

use crate::error::PumpError;
use crate::pricing::{
    fee_on, lemma_buy_cost_nonnegative, lemma_division_keeps_product, lemma_quotient_at_least,
    lemma_sell_output_nonnegative, lemma_sol_reserves_antitone, lemma_sol_reserves_at_own_tokens,
    lemma_sol_reserves_move, price_below,
};
use crate::state::{BondingCurve, Global};
use crate::trade::Order;
use anchor_lang::prelude::Pubkey;
use vstd::arithmetic::div_mod::{lemma_div_is_ordered, lemma_fundamental_div_mod, lemma_mod_bound};
use vstd::prelude::*;

verus! {

/// An accepted buy leaves the product of the virtual reserves where it was,
/// up to the rounding of its one division: the product never grows, and it
/// shrinks by less than the new virtual token reserves.
pub proof fn law_buy_keeps_product(
    curve: BondingCurve,
    global: Global,
    amount: u64,
    max_sol_cost: u64,
)
    requires
        curve.buy_rejection(global, amount, max_sol_cost) is None,
    ensures
        ({
            let after = curve.after_buy(global, amount);
            curve.product() - after.virtual_token_reserves < after.product() <= curve.product()
        }),
{
    lemma_buy_cost_nonnegative(curve, amount as int);
    lemma_division_keeps_product(curve.product(), curve.virtual_token_reserves - amount);
}

/// An accepted sell leaves the product of the virtual reserves where it was,
/// up to the rounding of its one division: the product never grows, and it
/// shrinks by less than the new virtual token reserves.
pub proof fn law_sell_keeps_product(
    curve: BondingCurve,
    global: Global,
    amount: u64,
    min_sol_output: u64,
)
    requires
        curve.sell_rejection(global, amount, min_sol_output) is None,
    ensures
        ({
            let after = curve.after_sell(amount);
            curve.product() - after.virtual_token_reserves < after.product() <= curve.product()
        }),
{
    lemma_sell_output_nonnegative(curve, amount as int);
    lemma_division_keeps_product(curve.product(), curve.virtual_token_reserves + amount);
}

/// On fixed reserves that hold some base currency, the price of a token
/// after buying rises strictly with the amount bought, and a larger amount
/// never costs less.
pub proof fn law_buy_price_rises(curve: BondingCurve, fewer: int, more: int)
    requires
        0 <= fewer < more < curve.virtual_token_reserves,
        curve.virtual_sol_reserves > 0,
    ensures
        curve.buy_sol_required(fewer) <= curve.buy_sol_required(more),
        price_below(
            curve.sol_reserves_after_buy(fewer),
            curve.virtual_token_reserves - fewer,
            curve.sol_reserves_after_buy(more),
            curve.virtual_token_reserves - more,
        ),
{
    let tokens_fewer = curve.virtual_token_reserves - fewer;
    let tokens_more = curve.virtual_token_reserves - more;
    let sol_fewer = curve.sol_reserves_after_buy(fewer);
    let sol_more = curve.sol_reserves_after_buy(more);
    lemma_buy_cost_nonnegative(curve, fewer);
    assert(0 <= curve.product()) by (nonlinear_arith)
        requires
            curve.product() == curve.virtual_sol_reserves * curve.virtual_token_reserves,
    ;
    lemma_sol_reserves_antitone(curve.product(), tokens_more, tokens_fewer);
    assert(sol_fewer * tokens_more < sol_more * tokens_fewer) by (nonlinear_arith)
        requires
            0 < sol_fewer <= sol_more,
            0 < tokens_more < tokens_fewer,
    ;
}

/// On fixed reserves, the price of a token after selling falls strictly with
/// the amount sold, as long as the smaller sale leaves base currency in the
/// virtual reserves, and a larger amount never pays less.
pub proof fn law_sell_price_falls(curve: BondingCurve, fewer: int, more: int)
    requires
        0 <= fewer < more,
        curve.sol_reserves_after_sell(fewer) > 0,
    ensures
        curve.sell_sol_output(fewer) <= curve.sell_sol_output(more),
        price_below(
            curve.sol_reserves_after_sell(more),
            curve.virtual_token_reserves + more,
            curve.sol_reserves_after_sell(fewer),
            curve.virtual_token_reserves + fewer,
        ),
{
    let tokens_fewer = curve.virtual_token_reserves + fewer;
    let tokens_more = curve.virtual_token_reserves + more;
    let sol_fewer = curve.sol_reserves_after_sell(fewer);
    let sol_more = curve.sol_reserves_after_sell(more);
    assert(0 <= curve.product()) by (nonlinear_arith)
        requires
            curve.product() == curve.virtual_sol_reserves * curve.virtual_token_reserves,
    ;
    if tokens_fewer == 0 {
        assert(curve.product() == 0) by (nonlinear_arith)
            requires
                curve.product() == curve.virtual_sol_reserves * curve.virtual_token_reserves,
                curve.virtual_token_reserves == 0,
        ;
        lemma_sol_reserves_antitone(0, 1, tokens_more);
        assert(sol_more <= 0);
        assert(sol_more * tokens_fewer == 0) by (nonlinear_arith)
            requires
                tokens_fewer == 0,
        ;
        assert(0 < sol_fewer * tokens_more) by (nonlinear_arith)
            requires
                0 < sol_fewer,
                0 < tokens_more,
        ;
    } else {
        lemma_sol_reserves_antitone(curve.product(), tokens_fewer, tokens_more);
        assert(sol_more * tokens_fewer < sol_fewer * tokens_more) by (nonlinear_arith)
            requires
                sol_more <= sol_fewer,
                0 < sol_fewer,
                0 < tokens_fewer < tokens_more,
        ;
    }
}

/// An accepted buy of at least one token, from reserves that hold some base
/// currency, leaves a strictly higher price behind.
pub proof fn law_buy_raises_price(
    curve: BondingCurve,
    global: Global,
    amount: u64,
    max_sol_cost: u64,
)
    requires
        curve.buy_rejection(global, amount, max_sol_cost) is None,
        amount > 0,
        curve.virtual_sol_reserves > 0,
    ensures
        price_below(
            curve.virtual_sol_reserves as int,
            curve.virtual_token_reserves as int,
            curve.after_buy(global, amount).virtual_sol_reserves as int,
            curve.after_buy(global, amount).virtual_token_reserves as int,
        ),
{
    let after = curve.after_buy(global, amount);
    lemma_buy_cost_nonnegative(curve, amount as int);
    lemma_division_keeps_product(curve.product(), curve.virtual_token_reserves - amount);
    assert(curve.virtual_sol_reserves * after.virtual_token_reserves
        < after.virtual_sol_reserves * curve.virtual_token_reserves) by (nonlinear_arith)
        requires
            0 < curve.virtual_sol_reserves <= after.virtual_sol_reserves,
            0 < after.virtual_token_reserves < curve.virtual_token_reserves,
    ;
}

/// An accepted sell of at least one token, into reserves that hold some base
/// currency, leaves a strictly lower price behind.
pub proof fn law_sell_lowers_price(
    curve: BondingCurve,
    global: Global,
    amount: u64,
    min_sol_output: u64,
)
    requires
        curve.sell_rejection(global, amount, min_sol_output) is None,
        amount > 0,
        curve.virtual_sol_reserves > 0,
    ensures
        price_below(
            curve.after_sell(amount).virtual_sol_reserves as int,
            curve.after_sell(amount).virtual_token_reserves as int,
            curve.virtual_sol_reserves as int,
            curve.virtual_token_reserves as int,
        ),
{
    let after = curve.after_sell(amount);
    lemma_sell_output_nonnegative(curve, amount as int);
    assert(after.virtual_sol_reserves * curve.virtual_token_reserves
        < curve.virtual_sol_reserves * after.virtual_token_reserves) by (nonlinear_arith)
        requires
            0 <= after.virtual_sol_reserves <= curve.virtual_sol_reserves,
            0 < curve.virtual_sol_reserves,
            0 <= curve.virtual_token_reserves < after.virtual_token_reserves,
    ;
}

/// After an accepted buy, buying any amount costs at least what it would
/// have cost before: the same amount never gets cheaper from one buy to the
/// next.
pub proof fn law_next_buy_costs_no_less(
    curve: BondingCurve,
    global: Global,
    amount: u64,
    max_sol_cost: u64,
    next: int,
)
    requires
        curve.buy_rejection(global, amount, max_sol_cost) is None,
        0 <= next < curve.after_buy(global, amount).virtual_token_reserves,
    ensures
        curve.buy_sol_required(next) <= curve.after_buy(global, amount).buy_sol_required(next),
{
    let after = curve.after_buy(global, amount);
    let sol = curve.virtual_sol_reserves as int;
    let tokens = curve.virtual_token_reserves as int;
    let sol_after = after.virtual_sol_reserves as int;
    let tokens_after = after.virtual_token_reserves as int;
    lemma_buy_cost_nonnegative(curve, amount as int);
    lemma_division_keeps_product(curve.product(), tokens - amount);
    lemma_sol_reserves_move(sol, tokens, next);
    lemma_sol_reserves_move(sol_after, tokens_after, next);
    let cost = (sol * next) / (tokens - next);
    assert(0 <= sol * next <= sol_after * next) by (nonlinear_arith)
        requires
            0 <= sol <= sol_after,
            0 <= next,
    ;
    lemma_div_is_ordered(0, sol * next, tokens - next);
    lemma_fundamental_div_mod(sol * next, tokens - next);
    lemma_mod_bound(sol * next, tokens - next);
    assert(cost * (tokens_after - next) <= sol_after * next) by (nonlinear_arith)
        requires
            0 <= cost,
            0 < tokens_after - next <= tokens - next,
            (tokens - next) * cost <= sol * next,
            sol * next <= sol_after * next,
    ;
    lemma_quotient_at_least(cost, sol_after * next, tokens_after - next);
}

/// After an accepted sell, selling any amount pays at most what it would
/// have paid before: the same amount never pays more from one sell to the
/// next.
pub proof fn law_next_sell_pays_no_more(
    curve: BondingCurve,
    global: Global,
    amount: u64,
    min_sol_output: u64,
    next: int,
)
    requires
        curve.sell_rejection(global, amount, min_sol_output) is None,
        0 <= next,
        0 < curve.virtual_token_reserves + next,
    ensures
        curve.after_sell(amount).sell_sol_output(next) <= curve.sell_sol_output(next),
{
    let after = curve.after_sell(amount);
    let sol = curve.virtual_sol_reserves as int;
    let tokens = curve.virtual_token_reserves as int;
    let sol_after = after.virtual_sol_reserves as int;
    let tokens_after = after.virtual_token_reserves as int;
    lemma_sell_output_nonnegative(curve, amount as int);
    lemma_sol_reserves_move(sol, tokens, -next);
    lemma_sol_reserves_move(sol_after, tokens_after, -next);
    let taken = (sol * (-next)) / (tokens + next);
    assert(sol * (-next) <= sol_after * (-next) <= 0) by (nonlinear_arith)
        requires
            0 <= sol_after <= sol,
            0 <= next,
    ;
    lemma_div_is_ordered(sol * (-next), 0, tokens + next);
    lemma_fundamental_div_mod(sol * (-next), tokens + next);
    lemma_mod_bound(sol * (-next), tokens + next);
    assert(taken * (tokens_after + next) <= sol_after * (-next)) by (nonlinear_arith)
        requires
            taken <= 0,
            0 < tokens + next <= tokens_after + next,
            (tokens + next) * taken <= sol * (-next),
            sol * (-next) <= sol_after * (-next),
    ;
    lemma_quotient_at_least(taken, sol_after * (-next), tokens_after + next);
}

/// Selling back at once what was just bought brings the virtual token
/// reserves back exactly and the virtual base-currency reserves back to what
/// they were or one unit below. The payout before the fee is the cost before
/// the fee or one unit more, so the seller nets less than that cost as soon
/// as the fee on the payout is two units.
pub proof fn law_round_trip_comes_back_close(
    curve: BondingCurve,
    global: Global,
    amount: u64,
    max_sol_cost: u64,
)
    requires
        curve.buy_rejection(global, amount, max_sol_cost) is None,
    ensures
        ({
            let bought = curve.after_buy(global, amount);
            let cost = curve.buy_sol_required(amount as int);
            let payout = bought.sell_sol_output(amount as int);
            let fee = fee_on(payout, global.fee_basis_points as int);
            &&& bought.virtual_token_reserves + amount == curve.virtual_token_reserves
            &&& curve.virtual_sol_reserves - 1 <= bought.sol_reserves_after_sell(amount as int)
                <= curve.virtual_sol_reserves
            &&& cost <= payout <= cost + 1
            &&& fee >= 2 ==> payout - fee < cost
        }),
{
    let bought = curve.after_buy(global, amount);
    let sol = curve.virtual_sol_reserves as int;
    let tokens = curve.virtual_token_reserves as int;
    lemma_buy_cost_nonnegative(curve, amount as int);
    lemma_division_keeps_product(curve.product(), tokens - amount);
    assert(bought.product() == bought.virtual_sol_reserves * bought.virtual_token_reserves);
    assert((sol - 1) * tokens == curve.product() - tokens) by (nonlinear_arith)
        requires
            curve.product() == sol * tokens,
    ;
    lemma_div_is_ordered((sol - 1) * tokens, bought.product(), tokens);
    lemma_div_is_ordered(bought.product(), sol * tokens, tokens);
    lemma_sol_reserves_at_own_tokens(sol - 1, tokens);
    lemma_sol_reserves_at_own_tokens(sol, tokens);
}

/// A policy with a positive migration threshold opens its curves with the
/// completion flag in step with the threshold.
pub proof fn law_opening_curve_tracks_threshold(global: Global, creator: Pubkey)
    requires
        global.migration_threshold > 0,
    ensures
        global.opening_curve(creator).completion_tracks_threshold(global),
{
}

/// No order, accepted or rejected, lets the completion flag and the
/// threshold drift apart: the flag is set by the very buy that brings the
/// real reserves to the threshold, and by nothing else.
pub proof fn law_attempt_tracks_threshold(curve: BondingCurve, global: Global, order: Order)
    requires
        curve.completion_tracks_threshold(global),
    ensures
        curve.attempt(global, order).completion_tracks_threshold(global),
{
    match order {
        Order::Buy { amount, max_sol_cost } => {
            if curve.buy_rejection(global, amount, max_sol_cost) is None {
                lemma_buy_cost_nonnegative(curve, amount as int);
            }
        },
        Order::Sell { amount, min_sol_output } => {
            if curve.sell_rejection(global, amount, min_sol_output) is None {
                lemma_sell_output_nonnegative(curve, amount as int);
            }
        },
    }
}

/// Over any sequence of orders the completion flag stays in step with the
/// threshold.
pub proof fn law_replay_tracks_threshold(curve: BondingCurve, global: Global, orders: Seq<Order>)
    requires
        curve.completion_tracks_threshold(global),
    ensures
        curve.replay(global, orders).completion_tracks_threshold(global),
    decreases orders.len(),
{
    if orders.len() > 0 {
        law_replay_tracks_threshold(curve, global, orders.drop_last());
        law_attempt_tracks_threshold(
            curve.replay(global, orders.drop_last()),
            global,
            orders.last(),
        );
    }
}

/// A complete curve rejects every order as complete and does not move.
pub proof fn law_complete_curve_rejects(curve: BondingCurve, global: Global, order: Order)
    requires
        curve.complete,
    ensures
        curve.rejection(global, order) == Some(PumpError::BondingCurveComplete),
        curve.attempt(global, order) == curve,
{
}

/// Completion is final: no sequence of orders moves a complete curve.
pub proof fn law_completion_is_final(curve: BondingCurve, global: Global, orders: Seq<Order>)
    requires
        curve.complete,
    ensures
        curve.replay(global, orders) == curve,
    decreases orders.len(),
{
    if orders.len() > 0 {
        law_completion_is_final(curve, global, orders.drop_last());
        law_complete_curve_rejects(curve, global, orders.last());
    }
}

/// Once a sequence of orders has completed the curve, nothing that follows
/// moves it.
pub proof fn law_nothing_moves_after_completion(
    curve: BondingCurve,
    global: Global,
    before: Seq<Order>,
    after: Seq<Order>,
)
    requires
        curve.replay(global, before).complete,
    ensures
        curve.replay(global, before + after) == curve.replay(global, before),
    decreases after.len(),
{
    if after.len() == 0 {
        assert(before + after =~= before);
    } else {
        assert((before + after).drop_last() =~= before + after.drop_last());
        assert((before + after).last() == after.last());
        law_nothing_moves_after_completion(curve, global, before, after.drop_last());
        law_complete_curve_rejects(curve.replay(global, before), global, after.last());
    }
}

/// No order raises the product of the virtual reserves, and none touches the
/// total supply or the creator.
pub proof fn law_attempt_is_conservative(curve: BondingCurve, global: Global, order: Order)
    ensures
        curve.attempt(global, order).product() <= curve.product(),
        curve.attempt(global, order).token_total_supply == curve.token_total_supply,
        curve.attempt(global, order).creator == curve.creator,
{
    match order {
        Order::Buy { amount, max_sol_cost } => {
            if curve.buy_rejection(global, amount, max_sol_cost) is None {
                law_buy_keeps_product(curve, global, amount, max_sol_cost);
            }
        },
        Order::Sell { amount, min_sol_output } => {
            if curve.sell_rejection(global, amount, min_sol_output) is None {
                law_sell_keeps_product(curve, global, amount, min_sol_output);
            }
        },
    }
}

/// Over any sequence of orders the product of the virtual reserves never
/// grows, and the total supply and the creator stay what they were.
pub proof fn law_replay_is_conservative(
    curve: BondingCurve,
    global: Global,
    orders: Seq<Order>,
)
    ensures
        curve.replay(global, orders).product() <= curve.product(),
        curve.replay(global, orders).token_total_supply == curve.token_total_supply,
        curve.replay(global, orders).creator == curve.creator,
    decreases orders.len(),
{
    if orders.len() > 0 {
        law_replay_is_conservative(curve, global, orders.drop_last());
        law_attempt_is_conservative(
            curve.replay(global, orders.drop_last()),
            global,
            orders.last(),
        );
    }
}

/// A buy that would take more tokens than the curve holds, virtual or real,
/// is rejected. An accepted buy moves every reserve by the exact amount, so
/// none wraps and none is clamped.
pub proof fn law_buy_moves_reserves_exactly(
    curve: BondingCurve,
    global: Global,
    amount: u64,
    max_sol_cost: u64,
)
    ensures
        amount >= curve.virtual_token_reserves || amount > curve.real_token_reserves
            ==> curve.buy_rejection(global, amount, max_sol_cost) is Some,
        curve.buy_rejection(global, amount, max_sol_cost) is None ==> ({
            let after = curve.after_buy(global, amount);
            let cost = curve.buy_sol_required(amount as int);
            &&& cost >= 0
            &&& after.virtual_token_reserves == curve.virtual_token_reserves - amount
            &&& after.real_token_reserves == curve.real_token_reserves - amount
            &&& after.virtual_sol_reserves == curve.virtual_sol_reserves + cost
            &&& after.real_sol_reserves == curve.real_sol_reserves + cost
        }),
{
    if curve.buy_rejection(global, amount, max_sol_cost) is None {
        lemma_buy_cost_nonnegative(curve, amount as int);
        lemma_division_keeps_product(curve.product(), curve.virtual_token_reserves - amount);
    }
}

/// A sell that would pay out more than the real base-currency reserves hold
/// is rejected. An accepted sell moves every reserve by the exact amount, so
/// none wraps and none is clamped.
pub proof fn law_sell_moves_reserves_exactly(
    curve: BondingCurve,
    global: Global,
    amount: u64,
    min_sol_output: u64,
)
    ensures
        curve.sell_sol_output(amount as int) > curve.real_sol_reserves
            ==> curve.sell_rejection(global, amount, min_sol_output) is Some,
        curve.sell_rejection(global, amount, min_sol_output) is None ==> ({
            let after = curve.after_sell(amount);
            let payout = curve.sell_sol_output(amount as int);
            &&& 0 <= payout <= curve.virtual_sol_reserves
            &&& payout <= curve.real_sol_reserves
            &&& after.virtual_token_reserves == curve.virtual_token_reserves + amount
            &&& after.real_token_reserves == curve.real_token_reserves + amount
            &&& after.virtual_sol_reserves == curve.virtual_sol_reserves - payout
            &&& after.real_sol_reserves == curve.real_sol_reserves - payout
        }),
{
    if curve.sell_rejection(global, amount, min_sol_output) is None {
        lemma_sell_output_nonnegative(curve, amount as int);
    }
}

/// A buyer pays the cost before the fee plus the fee, and the fee is the
/// rounded-down share of that cost.
pub proof fn law_buy_fee_is_conserved(
    curve: BondingCurve,
    global: Global,
    amount: u64,
    max_sol_cost: u64,
)
    requires
        curve.buy_rejection(global, amount, max_sol_cost) is None,
    ensures
        ({
            let quote = curve.buy_quote(global, amount);
            &&& quote.sol_amount == curve.buy_sol_required(amount as int)
            &&& quote.fee == fee_on(quote.sol_amount as int, global.fee_basis_points as int)
            &&& quote.sol_settled - quote.sol_amount == quote.fee
            &&& quote.sol_settled <= max_sol_cost
        }),
{
    lemma_buy_cost_nonnegative(curve, amount as int);
}

/// A seller receives the payout before the fee minus the fee, and the fee is
/// the rounded-down share of that payout.
pub proof fn law_sell_fee_is_conserved(
    curve: BondingCurve,
    global: Global,
    amount: u64,
    min_sol_output: u64,
)
    requires
        curve.sell_rejection(global, amount, min_sol_output) is None,
    ensures
        ({
            let quote = curve.sell_quote(global, amount);
            &&& quote.sol_amount == curve.sell_sol_output(amount as int)
            &&& quote.fee == fee_on(quote.sol_amount as int, global.fee_basis_points as int)
            &&& quote.sol_amount - quote.sol_settled == quote.fee
            &&& quote.sol_settled >= min_sol_output
        }),
{
    lemma_sell_output_nonnegative(curve, amount as int);
}

/// A buy never takes the curve over its supply.
pub proof fn law_buy_keeps_supply_bound(
    curve: BondingCurve,
    global: Global,
    amount: u64,
    max_sol_cost: u64,
)
    requires
        curve.supply_bounded(),
        curve.buy_rejection(global, amount, max_sol_cost) is None,
    ensures
        curve.after_buy(global, amount).supply_bounded(),
{
}

/// An accepted sell leaves the curve within its supply, whatever it held
/// before: a sale that would pass the supply is rejected.
pub proof fn law_sell_keeps_supply_bound(
    curve: BondingCurve,
    global: Global,
    amount: u64,
    min_sol_output: u64,
)
    ensures
        curve.real_token_reserves + amount > curve.token_total_supply ==> curve.sell_rejection(
            global,
            amount,
            min_sol_output,
        ) is Some,
        curve.sell_rejection(global, amount, min_sol_output) is None ==> curve.after_sell(
            amount,
        ).supply_bounded(),
{
}

/// No order, accepted or rejected, takes a well-formed curve out of its
/// supply or lets its completion flag drift from the threshold.
pub proof fn law_attempt_keeps_well_formed(curve: BondingCurve, global: Global, order: Order)
    requires
        curve.well_formed(global),
    ensures
        curve.attempt(global, order).well_formed(global),
{
    law_attempt_tracks_threshold(curve, global, order);
}

/// A well-formed curve stays well formed over any sequence of orders.
pub proof fn law_replay_keeps_well_formed(curve: BondingCurve, global: Global, orders: Seq<Order>)
    requires
        curve.well_formed(global),
    ensures
        curve.replay(global, orders).well_formed(global),
    decreases orders.len(),
{
    if orders.len() > 0 {
        law_replay_keeps_well_formed(curve, global, orders.drop_last());
        law_attempt_keeps_well_formed(
            curve.replay(global, orders.drop_last()),
            global,
            orders.last(),
        );
    }
}

/// Every curve that a well-formed policy opens is well formed after any
/// sequence of orders.
pub proof fn law_opened_curve_stays_well_formed(
    global: Global,
    creator: Pubkey,
    orders: Seq<Order>,
)
    requires
        global.well_formed(),
    ensures
        global.opening_curve(creator).replay(global, orders).well_formed(global),
{
    law_replay_keeps_well_formed(global.opening_curve(creator), global, orders);
}

} // verus!
