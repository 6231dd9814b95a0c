use vstd::prelude::*;
use crate::errors::XGrowthError;
use crate::identity::Identity;

verus! {

/// The platform record, one per deployment.
#[derive(Clone, Copy, Debug, PartialEq, Eq)]
pub struct Platform {
    pub authority: Identity,
    pub daily_reward_pool: u64,
    pub total_agents: u64,
    pub usdt_mint: Identity,
    pub oracle: Identity,
    pub bump: u8,
}

impl Platform {
    /// Bytes of the stored record: tag, then the fields in order.
    pub const LEN: usize = 8 + 32 + 8 + 8 + 32 + 32 + 1;
}

/// The shape of an agent's price curve.
#[derive(Clone, Copy, Debug, PartialEq, Eq)]
pub struct BondingCurveParams {
    /// Price at zero supply, in scaled units.
    pub base_price: u64,
    /// Kept for later use; no formula reads it.
    pub curve_factor: u64,
    /// The cap on the circulating supply. Zero is malformed.
    pub max_supply: u64,
}

impl BondingCurveParams {
    pub const LEN: usize = 8 + 8 + 8;

    /// Curve parameters are valid when the cap is positive.
    pub open spec fn valid(self) -> bool {
        self.max_supply > 0
    }

    /// The supply as a share of the cap, scaled and rounded down.
    pub open spec fn spec_supply_ratio(self, supply: u64) -> int
        recommends
            self.valid(),
    {
        (supply as int * 1_000_000) / (self.max_supply as int)
    }

    /// The square of one plus the supply ratio, scaled and rounded down.
    pub open spec fn spec_multiplier_squared(self, supply: u64) -> int
        recommends
            self.valid(),
    {
        ((1_000_000 + self.spec_supply_ratio(supply)) * (1_000_000 + self.spec_supply_ratio(
            supply,
        ))) / 1_000_000
    }

    /// The spot price at a supply: `base_price * (1 + supply / max_supply)^2`
    /// in fixed point, each division rounding down.
    pub open spec fn spec_price(self, supply: u64) -> int
        recommends
            self.valid(),
    {
        (self.base_price as int * self.spec_multiplier_squared(supply)) / 1_000_000
    }

    /// The tokens bought by an amount at the spot price, rounded down.
    pub open spec fn spec_tokens_out(self, usdt_amount: u64, supply: u64) -> int
        recommends
            self.valid(),
            self.spec_price(supply) > 0,
    {
        (usdt_amount as int * 1_000_000) / self.spec_price(supply)
    }

    /// Whether the curve gives a price at this supply that fits the price's
    /// width.
    pub open spec fn spec_price_defined(self, supply: u64) -> bool {
        self.valid() && self.spec_price(supply) <= u64::MAX
    }

    /// Whether the curve gives a quote for this amount at this supply: the
    /// price exists and is not zero, and the token amount fits its width.
    pub open spec fn spec_quote_defined(self, usdt_amount: u64, supply: u64) -> bool {
        &&& self.spec_price_defined(supply)
        &&& self.spec_price(supply) > 0
        &&& self.spec_tokens_out(usdt_amount, supply) <= u64::MAX
    }

    /// The spot price at `current_supply`.
    ///
    /// Fails with `InvalidBondingCurve` when the cap is zero, and when the
    /// price does not fit in 64 bits.
    pub fn calculate_price(&self, current_supply: u64) -> (r: Result<u64, XGrowthError>)
        ensures
            r is Ok <==> self.spec_price_defined(current_supply),
            r is Ok ==> r->Ok_0 == self.spec_price(current_supply),
            r is Err ==> r->Err_0 == XGrowthError::InvalidBondingCurve,
    {
        if self.max_supply == 0 {
            return Err(XGrowthError::InvalidBondingCurve);
        }
        let ghost squared_int = self.spec_multiplier_squared(current_supply);
        if self.base_price == 0 {
            assert(0 * squared_int == 0) by (nonlinear_arith);
            return Ok(0);
        }
        let scaled: u128 = current_supply as u128 * 1_000_000;
        let ratio: u128 = scaled / (self.max_supply as u128);
        assert(ratio <= scaled) by (nonlinear_arith)
            requires
                ratio == scaled / (self.max_supply as u128),
                self.max_supply >= 1,
        ;
        let multiplier: u128 = 1_000_000 + ratio;
        match multiplier.checked_mul(multiplier) {
            None => {
                assert(squared_int >= 1) by {
                    assert(multiplier * multiplier > u128::MAX);
                }
                assert(self.base_price as int * squared_int >= squared_int) by (nonlinear_arith)
                    requires
                        self.base_price >= 1,
                        squared_int >= 0,
                ;
                Err(XGrowthError::InvalidBondingCurve)
            },
            Some(square) => {
                let squared: u128 = square / 1_000_000;
                match (self.base_price as u128).checked_mul(squared) {
                    None => Err(XGrowthError::InvalidBondingCurve),
                    Some(product) => {
                        let price: u128 = product / 1_000_000;
                        if price > u64::MAX as u128 {
                            Err(XGrowthError::InvalidBondingCurve)
                        } else {
                            Ok(price as u64)
                        }
                    },
                }
            },
        }
    }

    /// The tokens that `usdt_amount` buys at `current_supply`, priced at the
    /// spot price for the whole amount.
    ///
    /// Fails with `InvalidBondingCurve` when there is no price, when the
    /// price is zero, and when the token amount does not fit in 64 bits.
    pub fn calculate_tokens_out(&self, usdt_amount: u64, current_supply: u64) -> (r: Result<
        u64,
        XGrowthError,
    >)
        ensures
            r is Ok <==> self.spec_quote_defined(usdt_amount, current_supply),
            r is Ok ==> r->Ok_0 == self.spec_tokens_out(usdt_amount, current_supply),
            r is Err ==> r->Err_0 == XGrowthError::InvalidBondingCurve,
    {
        match self.calculate_price(current_supply) {
            Err(e) => Err(e),
            Ok(avg_price) => {
                if avg_price == 0 {
                    return Err(XGrowthError::InvalidBondingCurve);
                }
                let tokens: u128 = (usdt_amount as u128 * 1_000_000) / (avg_price as u128);
                if tokens > u64::MAX as u128 {
                    Err(XGrowthError::InvalidBondingCurve)
                } else {
                    Ok(tokens as u64)
                }
            },
        }
    }
}

/// Engagement counters of an agent: totals over its life, and the window
/// since the last distribution.
#[derive(Clone, Copy, Debug, PartialEq, Eq)]
pub struct PerformanceMetrics {
    pub total_likes: u64,
    pub total_views: u64,
    pub total_comments: u64,
    pub total_followers: u64,
    pub last_updated: i64,
    pub daily_likes: u64,
    pub daily_views: u64,
    pub daily_comments: u64,
    pub daily_new_followers: u64,
}

impl Default for PerformanceMetrics {
    fn default() -> (r: PerformanceMetrics)
        ensures
            r == PerformanceMetrics::spec_zero(),
    {
        PerformanceMetrics {
            total_likes: 0,
            total_views: 0,
            total_comments: 0,
            total_followers: 0,
            last_updated: 0,
            daily_likes: 0,
            daily_views: 0,
            daily_comments: 0,
            daily_new_followers: 0,
        }
    }
}

impl PerformanceMetrics {
    pub const LEN: usize = 8 + 8 + 8 + 8 + 8 + 8 + 8 + 8 + 8;

    /// The counters of an agent nothing was reported for.
    pub open spec fn spec_zero() -> PerformanceMetrics {
        PerformanceMetrics {
            total_likes: 0,
            total_views: 0,
            total_comments: 0,
            total_followers: 0,
            last_updated: 0,
            daily_likes: 0,
            daily_views: 0,
            daily_comments: 0,
            daily_new_followers: 0,
        }
    }

    /// The score of the daily window: a like counts once, ten views count
    /// once (rounded down), a comment twice, a new follower five times.
    pub open spec fn spec_score(self) -> int {
        self.daily_likes + self.daily_views / 10 + self.daily_comments * 2
            + self.daily_new_followers * 5
    }

    /// These counters with the daily window cleared.
    pub open spec fn spec_daily_cleared(self) -> PerformanceMetrics {
        PerformanceMetrics {
            daily_likes: 0,
            daily_views: 0,
            daily_comments: 0,
            daily_new_followers: 0,
            ..self
        }
    }

    /// Whether the four deltas can be added to every counter without leaving
    /// the counters' width.
    pub open spec fn spec_can_record(
        self,
        likes: u64,
        views: u64,
        comments: u64,
        new_followers: u64,
    ) -> bool {
        &&& self.total_likes + likes <= u64::MAX
        &&& self.total_views + views <= u64::MAX
        &&& self.total_comments + comments <= u64::MAX
        &&& self.total_followers + new_followers <= u64::MAX
        &&& self.daily_likes + likes <= u64::MAX
        &&& self.daily_views + views <= u64::MAX
        &&& self.daily_comments + comments <= u64::MAX
        &&& self.daily_new_followers + new_followers <= u64::MAX
    }

    /// These counters after a report at time `now`: each delta added to its
    /// total and to its daily counter.
    pub open spec fn spec_recorded(
        self,
        likes: u64,
        views: u64,
        comments: u64,
        new_followers: u64,
        now: i64,
    ) -> PerformanceMetrics
        recommends
            self.spec_can_record(likes, views, comments, new_followers),
    {
        PerformanceMetrics {
            total_likes: (self.total_likes + likes) as u64,
            total_views: (self.total_views + views) as u64,
            total_comments: (self.total_comments + comments) as u64,
            total_followers: (self.total_followers + new_followers) as u64,
            last_updated: now,
            daily_likes: (self.daily_likes + likes) as u64,
            daily_views: (self.daily_views + views) as u64,
            daily_comments: (self.daily_comments + comments) as u64,
            daily_new_followers: (self.daily_new_followers + new_followers) as u64,
        }
    }

    /// The score of the daily window. It is returned in 128 bits, which hold
    /// it for every value of the counters.
    pub fn calculate_score(&self) -> (r: u128)
        ensures
            r == self.spec_score(),
    {
        let likes_score: u128 = self.daily_likes as u128;
        let views_score: u128 = (self.daily_views / 10) as u128;
        let comments_score: u128 = self.daily_comments as u128 * 2;
        let followers_score: u128 = self.daily_new_followers as u128 * 5;
        likes_score + views_score + comments_score + followers_score
    }

    /// Clears the daily window and leaves the totals and the time stamp.
    pub fn reset_daily_metrics(&mut self)
        ensures
            *final(self) == old(self).spec_daily_cleared(),
    {
        self.daily_likes = 0;
        self.daily_views = 0;
        self.daily_comments = 0;
        self.daily_new_followers = 0;
    }

    /// Whether a report of these deltas fits the counters.
    pub fn can_record(&self, likes: u64, views: u64, comments: u64, new_followers: u64) -> (r:
        bool)
        ensures
            r == self.spec_can_record(likes, views, comments, new_followers),
    {
        likes <= u64::MAX - self.total_likes && views <= u64::MAX - self.total_views && comments
            <= u64::MAX - self.total_comments && new_followers <= u64::MAX - self.total_followers
            && likes <= u64::MAX - self.daily_likes && views <= u64::MAX - self.daily_views
            && comments <= u64::MAX - self.daily_comments && new_followers <= u64::MAX
            - self.daily_new_followers
    }
}

/// One tradable token with its curve, its market state and its counters.
#[derive(Clone, Debug, PartialEq, Eq)]
pub struct Agent {
    pub agent_id: String,
    pub authority: Identity,
    pub token_mint: Identity,
    pub name: String,
    pub symbol: String,
    pub uri: String,
    pub bonding_curve: BondingCurveParams,
    /// The authorised amount to mint; informational.
    pub total_supply: u64,
    pub circulating_supply: u64,
    /// Reserve-asset units held against this agent.
    pub reserve_balance: u64,
    pub performance: PerformanceMetrics,
    pub total_rewards_earned: u64,
    pub last_reward_distribution: i64,
    pub bump: u8,
}

impl Agent {
    pub const LEN: usize = 8 + (4 + 32) + 32 + 32 + (4 + 64) + (4 + 16) + (4 + 200)
        + BondingCurveParams::LEN + 8 + 8 + 8 + PerformanceMetrics::LEN + 8 + 8 + 1;

    /// What holds of an agent at rest: its curve is valid and its
    /// circulating supply is within the cap.
    pub open spec fn well_formed(self) -> bool {
        &&& self.bonding_curve.valid()
        &&& self.circulating_supply <= self.bonding_curve.max_supply
    }
}

/// What one user has accrued and claimed for one agent.
#[derive(Clone, Copy, Debug, PartialEq, Eq)]
pub struct UserRewards {
    pub user: Identity,
    pub agent: Identity,
    pub pending_rewards: u64,
    pub claimed_rewards: u64,
    pub last_claim: i64,
    pub bump: u8,
}

impl UserRewards {
    pub const LEN: usize = 8 + 32 + 32 + 8 + 8 + 8 + 1;
}

} // verus!
