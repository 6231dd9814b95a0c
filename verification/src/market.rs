use vstd::prelude::*;
use crate::errors::XGrowthError;
use crate::state::{Agent, BondingCurveParams};

verus! {

/// What the ledger has to carry out for an admitted buy: move `usdt_amount`
/// from the buyer to the agent's reserve, and mint `tokens_out` to the buyer.
#[derive(Clone, Copy, Debug, PartialEq, Eq, Structural)]
pub struct BuyOrder {
    pub usdt_amount: u64,
    pub tokens_out: u64,
}

/// What the ledger has to carry out for an admitted sell: burn
/// `token_amount` from the seller, and move `usdt_after_fee` from the agent's
/// reserve to the seller.
#[derive(Clone, Copy, Debug, PartialEq, Eq, Structural)]
pub struct SellOrder {
    pub token_amount: u64,
    pub usdt_after_fee: u64,
}

/// What a sale of `token_amount` at `supply` is worth at the spot price,
/// before the fee, rounded down.
pub open spec fn spec_sell_gross(curve: BondingCurveParams, token_amount: u64, supply: u64) -> int
    recommends
        curve.valid(),
{
    (token_amount as int * curve.spec_price(supply)) / 1_000_000
}

/// What a sale pays out: the gross value less the fee of one percent,
/// rounded down.
pub open spec fn spec_sell_proceeds(
    curve: BondingCurveParams,
    token_amount: u64,
    supply: u64,
) -> int
    recommends
        curve.valid(),
{
    (spec_sell_gross(curve, token_amount, supply) * 99) / 100
}

/// The decision on a buy. The quote is taken at the circulating supply; the
/// slippage bound is tested first, then the cap.
pub open spec fn spec_buy(agent: Agent, usdt_amount: u64, min_tokens_out: u64) -> Result<
    BuyOrder,
    XGrowthError,
> {
    let curve = agent.bonding_curve;
    let tokens = curve.spec_tokens_out(usdt_amount, agent.circulating_supply);
    if !curve.spec_quote_defined(usdt_amount, agent.circulating_supply) {
        Err(XGrowthError::InvalidBondingCurve)
    } else if tokens < min_tokens_out {
        Err(XGrowthError::SlippageExceeded)
    } else if agent.circulating_supply + tokens > curve.max_supply {
        Err(XGrowthError::MaxSupplyReached)
    } else {
        Ok(BuyOrder { usdt_amount, tokens_out: tokens as u64 })
    }
}

/// The decision on a sell. The payout is priced at the circulating supply;
/// the slippage bound is tested first, then the reserve.
pub open spec fn spec_sell(agent: Agent, token_amount: u64, min_usdt_out: u64) -> Result<
    SellOrder,
    XGrowthError,
> {
    let curve = agent.bonding_curve;
    let proceeds = spec_sell_proceeds(curve, token_amount, agent.circulating_supply);
    if !curve.spec_price_defined(agent.circulating_supply) {
        Err(XGrowthError::InvalidBondingCurve)
    } else if proceeds < min_usdt_out {
        Err(XGrowthError::SlippageExceeded)
    } else if agent.reserve_balance < proceeds {
        Err(XGrowthError::InsufficientReserve)
    } else {
        Ok(SellOrder { token_amount, usdt_after_fee: proceeds as u64 })
    }
}

/// Decides a buy of tokens for `usdt_amount` and returns the order for the
/// ledger. The agent is not changed: once the ledger has moved the payment
/// and minted the tokens, `Agent::apply_buy` records the trade.
///
/// Fails with `InvalidBondingCurve` when the curve gives no quote, with
/// `SlippageExceeded` when the quote is below `min_tokens_out`, and with
/// `MaxSupplyReached` when the tokens would exceed the cap.
pub fn buy_from_curve(agent: &Agent, usdt_amount: u64, min_tokens_out: u64) -> (r: Result<
    BuyOrder,
    XGrowthError,
>)
    ensures
        r == spec_buy(*agent, usdt_amount, min_tokens_out),
        agent.bonding_curve.spec_quote_defined(usdt_amount, agent.circulating_supply)
            && agent.bonding_curve.spec_tokens_out(usdt_amount, agent.circulating_supply)
            < min_tokens_out ==> r == Err::<BuyOrder, XGrowthError>(
            XGrowthError::SlippageExceeded,
        ),
        r is Ok ==> r->Ok_0.usdt_amount == usdt_amount && r->Ok_0.tokens_out >= min_tokens_out
            && agent.circulating_supply + r->Ok_0.tokens_out <= agent.bonding_curve.max_supply,
{
    let tokens_out: u64 = match agent.bonding_curve.calculate_tokens_out(
        usdt_amount,
        agent.circulating_supply,
    ) {
        Ok(t) => t,
        Err(e) => {
            return Err(e);
        },
    };
    if tokens_out < min_tokens_out {
        return Err(XGrowthError::SlippageExceeded);
    }
    if tokens_out > agent.bonding_curve.max_supply || agent.circulating_supply
        > agent.bonding_curve.max_supply - tokens_out {
        return Err(XGrowthError::MaxSupplyReached);
    }
    Ok(BuyOrder { usdt_amount, tokens_out })
}

/// Decides a sell of `token_amount` tokens and returns the order for the
/// ledger. The agent is not changed: once the ledger has burnt the tokens
/// and paid the seller, `Agent::apply_sell` records the trade.
///
/// Fails with `InvalidBondingCurve` when the curve gives no price, with
/// `SlippageExceeded` when the payout after the fee is below `min_usdt_out`,
/// and with `InsufficientReserve` when the reserve holds less than the
/// payout.
pub fn sell_to_curve(agent: &Agent, token_amount: u64, min_usdt_out: u64) -> (r: Result<
    SellOrder,
    XGrowthError,
>)
    ensures
        r == spec_sell(*agent, token_amount, min_usdt_out),
        agent.bonding_curve.spec_price_defined(agent.circulating_supply) && spec_sell_proceeds(
            agent.bonding_curve,
            token_amount,
            agent.circulating_supply,
        ) >= min_usdt_out && spec_sell_proceeds(
            agent.bonding_curve,
            token_amount,
            agent.circulating_supply,
        ) > agent.reserve_balance ==> r == Err::<SellOrder, XGrowthError>(
            XGrowthError::InsufficientReserve,
        ),
        r is Ok ==> r->Ok_0.token_amount == token_amount && r->Ok_0.usdt_after_fee
            >= min_usdt_out && r->Ok_0.usdt_after_fee <= agent.reserve_balance,
{
    let current_price: u64 = match agent.bonding_curve.calculate_price(agent.circulating_supply) {
        Ok(p) => p,
        Err(e) => {
            return Err(e);
        },
    };
    assert(token_amount as u128 * current_price as u128 <= u128::MAX) by (nonlinear_arith)
        requires
            token_amount <= u64::MAX,
            current_price <= u64::MAX,
    ;
    let usdt_out: u128 = (token_amount as u128 * current_price as u128) / 1_000_000;
    let usdt_after_fee: u128 = (usdt_out * 99) / 100;
    if usdt_after_fee < min_usdt_out as u128 {
        return Err(XGrowthError::SlippageExceeded);
    }
    if (agent.reserve_balance as u128) < usdt_after_fee {
        return Err(XGrowthError::InsufficientReserve);
    }
    Ok(SellOrder { token_amount, usdt_after_fee: usdt_after_fee as u64 })
}

impl Agent {
    /// Whether a buy order can be recorded: the supply stays within the cap
    /// and the reserve within its width.
    pub open spec fn admits_buy(self, order: BuyOrder) -> bool {
        &&& self.circulating_supply + order.tokens_out <= self.bonding_curve.max_supply
        &&& self.reserve_balance + order.usdt_amount <= u64::MAX
    }

    /// Whether a sell order can be recorded: the tokens are in circulation
    /// and the reserve covers the payout.
    pub open spec fn admits_sell(self, order: SellOrder) -> bool {
        &&& order.token_amount <= self.circulating_supply
        &&& order.usdt_after_fee <= self.reserve_balance
    }

    /// This agent after a buy order.
    pub open spec fn spec_after_buy(self, order: BuyOrder) -> Agent
        recommends
            self.admits_buy(order),
    {
        Agent {
            circulating_supply: (self.circulating_supply + order.tokens_out) as u64,
            reserve_balance: (self.reserve_balance + order.usdt_amount) as u64,
            ..self
        }
    }

    /// This agent after a sell order.
    pub open spec fn spec_after_sell(self, order: SellOrder) -> Agent
        recommends
            self.admits_sell(order),
    {
        Agent {
            circulating_supply: (self.circulating_supply - order.token_amount) as u64,
            reserve_balance: (self.reserve_balance - order.usdt_after_fee) as u64,
            ..self
        }
    }

    /// Exec form of `admits_buy`.
    pub fn can_apply_buy(&self, order: &BuyOrder) -> (r: bool)
        ensures
            r == self.admits_buy(*order),
    {
        order.tokens_out <= self.bonding_curve.max_supply && self.circulating_supply
            <= self.bonding_curve.max_supply - order.tokens_out && order.usdt_amount <= u64::MAX
            - self.reserve_balance
    }

    /// Exec form of `admits_sell`.
    pub fn can_apply_sell(&self, order: &SellOrder) -> (r: bool)
        ensures
            r == self.admits_sell(*order),
    {
        order.token_amount <= self.circulating_supply && order.usdt_after_fee
            <= self.reserve_balance
    }

    /// Records a buy that the ledger has carried out: the minted tokens join
    /// the circulating supply and the payment joins the reserve. Nothing
    /// else changes, and a well-formed agent stays well-formed.
    pub fn apply_buy(&mut self, order: &BuyOrder)
        requires
            old(self).admits_buy(*order),
        ensures
            *final(self) == old(self).spec_after_buy(*order),
            final(self).circulating_supply == old(self).circulating_supply + order.tokens_out,
            final(self).reserve_balance == old(self).reserve_balance + order.usdt_amount,
            old(self).well_formed() ==> final(self).well_formed(),
    {
        self.circulating_supply = self.circulating_supply + order.tokens_out;
        self.reserve_balance = self.reserve_balance + order.usdt_amount;
    }

    /// Records a sell that the ledger has carried out: the burnt tokens
    /// leave the circulating supply and the payout leaves the reserve.
    /// Nothing else changes, and a well-formed agent stays well-formed.
    pub fn apply_sell(&mut self, order: &SellOrder)
        requires
            old(self).admits_sell(*order),
        ensures
            *final(self) == old(self).spec_after_sell(*order),
            final(self).circulating_supply == old(self).circulating_supply - order.token_amount,
            final(self).reserve_balance == old(self).reserve_balance - order.usdt_after_fee,
            old(self).well_formed() ==> final(self).well_formed(),
    {
        self.circulating_supply = self.circulating_supply - order.token_amount;
        self.reserve_balance = self.reserve_balance - order.usdt_after_fee;
    }
}

} // verus!
