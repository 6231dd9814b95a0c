use vstd::prelude::*;
use crate::market::{spec_buy, spec_sell, spec_sell_proceeds};
use crate::state::{Agent, BondingCurveParams};

verus! {

/// One request to the market, as it enters a history of trades.
pub enum Trade {
    Buy { usdt_amount: u64, min_tokens_out: u64 },
    Sell { token_amount: u64, min_usdt_out: u64 },
}

/// The agent after one successful trade: the trade was admitted, and its
/// order could be recorded. `None` where the trade fails.
pub open spec fn spec_trade(agent: Agent, trade: Trade) -> Option<Agent> {
    match trade {
        Trade::Buy { usdt_amount, min_tokens_out } => match spec_buy(
            agent,
            usdt_amount,
            min_tokens_out,
        ) {
            Ok(order) => if agent.admits_buy(order) {
                Some(agent.spec_after_buy(order))
            } else {
                None
            },
            Err(_) => None,
        },
        Trade::Sell { token_amount, min_usdt_out } => match spec_sell(
            agent,
            token_amount,
            min_usdt_out,
        ) {
            Ok(order) => if agent.admits_sell(order) {
                Some(agent.spec_after_sell(order))
            } else {
                None
            },
            Err(_) => None,
        },
    }
}

/// The agent after a history of trades, each of them successful. `None`
/// where one of them fails.
pub open spec fn spec_trades(agent: Agent, trades: Seq<Trade>) -> Option<Agent>
    decreases trades.len(),
{
    if trades.len() == 0 {
        Some(agent)
    } else {
        match spec_trades(agent, trades.drop_last()) {
            Some(before) => spec_trade(before, trades.last()),
            None => None,
        }
    }
}

/// Rounding a quotient down keeps the order of the numerators.
proof fn lemma_floor_div_monotone(x: int, y: int, d: int)
    by (nonlinear_arith)
    requires
        0 <= x <= y,
        d > 0,
    ensures
        x / d <= y / d,
{
}

/// A quotient rounded down, times the divisor, does not exceed the
/// numerator.
proof fn lemma_floor_div_below(x: int, d: int)
    by (nonlinear_arith)
    requires
        0 <= x,
        d > 0,
    ensures
        0 <= x / d,
        (x / d) * d <= x,
{
}

/// At zero supply the price is the base price.
pub proof fn lemma_price_at_zero(curve: BondingCurveParams)
    requires
        curve.valid(),
    ensures
        curve.spec_price(0) == curve.base_price,
{
    assert(0int / (curve.max_supply as int) == 0) by (nonlinear_arith)
        requires
            curve.max_supply > 0,
    ;
    assert(curve.spec_supply_ratio(0) == 0);
    assert(curve.spec_multiplier_squared(0) == 1_000_000);
}

/// The price never falls as the supply grows.
pub proof fn lemma_price_monotone(curve: BondingCurveParams, low: u64, high: u64)
    requires
        curve.valid(),
        low <= high,
    ensures
        0 <= curve.spec_price(low) <= curve.spec_price(high),
        curve.base_price <= curve.spec_price(low),
{
    let r1 = curve.spec_supply_ratio(low);
    let r2 = curve.spec_supply_ratio(high);
    lemma_floor_div_below(low as int * 1_000_000, curve.max_supply as int);
    lemma_floor_div_monotone(low as int * 1_000_000, high as int * 1_000_000, curve.max_supply as int);
    let m1 = 1_000_000 + r1;
    let m2 = 1_000_000 + r2;
    assert(1_000_000 * 1_000_000 <= m1 * m1 <= m2 * m2) by (nonlinear_arith)
        requires
            1_000_000 <= m1 <= m2,
    ;
    let q1 = curve.spec_multiplier_squared(low);
    let q2 = curve.spec_multiplier_squared(high);
    let b = curve.base_price as int;
    assert(b * 1_000_000 <= b * q1 <= b * q2) by (nonlinear_arith)
        requires
            0 <= b,
            1_000_000 <= q1 <= q2,
    ;
}

/// The price rises strictly between two supplies whose scaled ratios to the
/// cap differ by `d`, provided that `2 * base_price * d` reaches the scale.
/// Where the ratios are equal, or the base price is too small for the step,
/// rounding can leave the two prices equal.
pub proof fn lemma_price_strictly_increasing(curve: BondingCurveParams, low: u64, high: u64)
    requires
        curve.valid(),
        low < high,
        2 * curve.base_price * (curve.spec_supply_ratio(high) - curve.spec_supply_ratio(low))
            >= 1_000_000,
    ensures
        curve.spec_price(low) < curve.spec_price(high),
{
    let r1 = curve.spec_supply_ratio(low);
    let r2 = curve.spec_supply_ratio(high);
    let d = r2 - r1;
    let b = curve.base_price as int;
    lemma_floor_div_below(low as int * 1_000_000, curve.max_supply as int);
    assert(d >= 1) by (nonlinear_arith)
        requires
            2 * b * d >= 1_000_000,
            b >= 0,
    ;
    let m1 = 1_000_000 + r1;
    let m2 = 1_000_000 + r2;
    assert(m2 * m2 >= m1 * m1 + 2_000_000 * d) by (nonlinear_arith)
        requires
            m1 >= 1_000_000,
            m2 == m1 + d,
            d >= 1,
    ;
    let q1 = curve.spec_multiplier_squared(low);
    let q2 = curve.spec_multiplier_squared(high);
    assert(b * q2 >= b * q1 + 1_000_000) by (nonlinear_arith)
        requires
            q2 >= q1 + 2 * d,
            2 * b * d >= 1_000_000,
            b >= 0,
    ;
}

/// With a cap of at most one scale unit and a base price of at least half a
/// scale unit, the price rises strictly with every token of supply.
pub proof fn lemma_price_strictly_increasing_small_cap(
    curve: BondingCurveParams,
    low: u64,
    high: u64,
)
    requires
        curve.valid(),
        curve.max_supply <= 1_000_000,
        curve.base_price >= 500_000,
        low < high,
    ensures
        curve.spec_price(low) < curve.spec_price(high),
{
    let r1 = curve.spec_supply_ratio(low);
    let r2 = curve.spec_supply_ratio(high);
    let x = low as int * 1_000_000;
    let y = high as int * 1_000_000;
    let m = curve.max_supply as int;
    assert((x + m) / m == x / m + 1) by (nonlinear_arith)
        requires
            x >= 0,
            m > 0,
    ;
    lemma_floor_div_monotone(x + m, y, m);
    let b = curve.base_price as int;
    assert(2 * b * (r2 - r1) >= 1_000_000) by (nonlinear_arith)
        requires
            b >= 500_000,
            r2 - r1 >= 1,
    ;
    lemma_price_strictly_increasing(curve, low, high);
}

/// Buying and selling the same tokens at once loses money whenever the
/// fee of one percent outweighs the rise of the price that the buy itself
/// caused: if 99 times the price after the buy is below 100 times the price
/// before it, what the sale of the bought tokens pays is less than what was
/// spent. Where the buy moves the price by more than that, the sale can pay
/// more than was spent.
pub proof fn lemma_round_trip_loses(agent: Agent, usdt_amount: u64, min_tokens_out: u64)
    requires
        agent.well_formed(),
        usdt_amount > 0,
        spec_buy(agent, usdt_amount, min_tokens_out) is Ok,
        agent.admits_buy(spec_buy(agent, usdt_amount, min_tokens_out)->Ok_0),
        99 * agent.bonding_curve.spec_price(
            agent.spec_after_buy(
                spec_buy(agent, usdt_amount, min_tokens_out)->Ok_0,
            ).circulating_supply,
        ) < 100 * agent.bonding_curve.spec_price(agent.circulating_supply),
    ensures
        ({
            let order = spec_buy(agent, usdt_amount, min_tokens_out)->Ok_0;
            let after = agent.spec_after_buy(order);
            &&& spec_sell_proceeds(
                after.bonding_curve,
                order.tokens_out,
                after.circulating_supply,
            ) < usdt_amount
            &&& forall|min_usdt_out: u64| #[trigger]
                spec_sell(after, order.tokens_out, min_usdt_out) is Ok ==> spec_sell(
                    after,
                    order.tokens_out,
                    min_usdt_out,
                )->Ok_0.usdt_after_fee < usdt_amount
        }),
{
    let curve = agent.bonding_curve;
    let order = spec_buy(agent, usdt_amount, min_tokens_out)->Ok_0;
    let after = agent.spec_after_buy(order);
    let price_before = curve.spec_price(agent.circulating_supply);
    let price_after = curve.spec_price(after.circulating_supply);
    let t = order.tokens_out as int;
    let spent = usdt_amount as int;
    assert(t == (spent * 1_000_000) / price_before);
    lemma_floor_div_below(spent * 1_000_000, price_before);
    lemma_price_monotone(curve, agent.circulating_supply, after.circulating_supply);
    assert(0 <= t * price_after) by (nonlinear_arith)
        requires
            0 <= t,
            0 <= price_after,
    ;
    if t == 0 {
        assert(t * price_after == 0) by (nonlinear_arith)
            requires
                t == 0,
        ;
    } else {
        assert(99 * (t * price_after) < 100 * (t * price_before)) by (nonlinear_arith)
            requires
                t > 0,
                99 * price_after < 100 * price_before,
        ;
    }
}

/// Where a buy is too small to move the price, selling the bought tokens at
/// once pays at most 99 percent of what was spent: the whole fee is lost, and
/// what the two roundings took with it.
pub proof fn lemma_round_trip_at_constant_price_pays_the_fee(
    agent: Agent,
    usdt_amount: u64,
    min_tokens_out: u64,
)
    requires
        agent.well_formed(),
        spec_buy(agent, usdt_amount, min_tokens_out) is Ok,
        agent.admits_buy(spec_buy(agent, usdt_amount, min_tokens_out)->Ok_0),
        agent.bonding_curve.spec_price(
            agent.spec_after_buy(
                spec_buy(agent, usdt_amount, min_tokens_out)->Ok_0,
            ).circulating_supply,
        ) == agent.bonding_curve.spec_price(agent.circulating_supply),
    ensures
        ({
            let order = spec_buy(agent, usdt_amount, min_tokens_out)->Ok_0;
            let after = agent.spec_after_buy(order);
            spec_sell_proceeds(after.bonding_curve, order.tokens_out, after.circulating_supply)
                * 100 <= usdt_amount * 99
        }),
{
    let order = spec_buy(agent, usdt_amount, min_tokens_out)->Ok_0;
    let price = agent.bonding_curve.spec_price(agent.circulating_supply);
    let spent = usdt_amount as int;
    assert(order.tokens_out == (spent * 1_000_000) / price);
    lemma_floor_div_below(spent * 1_000_000, price);
}

/// After any history of successful trades a well-formed agent is
/// well-formed: its curve is the one it began with, and its circulating
/// supply is within the cap. The reserve, being unsigned, is never negative.
pub proof fn lemma_trade_history_keeps_well_formed(agent: Agent, trades: Seq<Trade>)
    requires
        agent.well_formed(),
        spec_trades(agent, trades) is Some,
    ensures
        spec_trades(agent, trades)->Some_0.well_formed(),
        spec_trades(agent, trades)->Some_0.bonding_curve == agent.bonding_curve,
        spec_trades(agent, trades)->Some_0.circulating_supply <= agent.bonding_curve.max_supply,
        spec_trades(agent, trades)->Some_0.reserve_balance >= 0,
    decreases trades.len(),
{
    if trades.len() > 0 {
        lemma_trade_history_keeps_well_formed(agent, trades.drop_last());
    }
}

/// Trades keep an agent well-formed. An admitted buy never takes the supply
/// past the cap, and the agent after it is well-formed; so is the agent
/// after an admitted sell of tokens that are in circulation. The reserve,
/// being unsigned, is never negative.
pub proof fn lemma_trades_keep_well_formed(
    agent: Agent,
    usdt_amount: u64,
    min_tokens_out: u64,
    token_amount: u64,
    min_usdt_out: u64,
)
    requires
        agent.well_formed(),
    ensures
        spec_buy(agent, usdt_amount, min_tokens_out) matches Ok(order) ==> {
            &&& agent.circulating_supply + order.tokens_out <= agent.bonding_curve.max_supply
            &&& agent.admits_buy(order) ==> agent.spec_after_buy(order).well_formed()
        },
        spec_sell(agent, token_amount, min_usdt_out) matches Ok(order) ==> {
            &&& order.usdt_after_fee <= agent.reserve_balance
            &&& agent.admits_sell(order) ==> agent.spec_after_sell(order).well_formed()
        },
{
}

} // verus!
