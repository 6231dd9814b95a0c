use vstd::prelude::*;
use crate::errors::XGrowthError;
use crate::identity::Identity;
use crate::state::{Agent, BondingCurveParams, PerformanceMetrics, Platform};

verus! {

/// Makes the platform record: no agent yet, and the given authority,
/// reserve asset, reporter and daily pool.
pub fn initialize_platform(
    authority: Identity,
    usdt_mint: Identity,
    oracle: Identity,
    daily_reward_pool: u64,
    bump: u8,
) -> (platform: Platform)
    ensures
        platform == (Platform {
            authority,
            daily_reward_pool,
            total_agents: 0,
            usdt_mint,
            oracle,
            bump,
        }),
{
    Platform { authority, daily_reward_pool, total_agents: 0, usdt_mint, oracle, bump }
}

/// Makes the record of a new agent at time `now` and counts it on the
/// platform.
///
/// Fails with `InvalidBondingCurve` when the curve's cap is zero, on every
/// platform; the platform is then left as it was. Otherwise the agent starts with nothing
/// in circulation, an empty reserve and zeroed counters, and is well-formed.
pub fn create_agent(
    platform: &mut Platform,
    authority: Identity,
    token_mint: Identity,
    agent_id: String,
    name: String,
    symbol: String,
    uri: String,
    initial_supply: u64,
    bonding_curve_params: BondingCurveParams,
    now: i64,
    bump: u8,
) -> (r: Result<Agent, XGrowthError>)
    requires
        bonding_curve_params.valid() ==> old(platform).total_agents < u64::MAX,
    ensures
        r is Ok <==> bonding_curve_params.valid(),
        r is Err ==> r->Err_0 == XGrowthError::InvalidBondingCurve && *final(platform) == *old(
            platform,
        ),
        r is Ok ==> *final(platform) == (Platform {
            total_agents: (old(platform).total_agents + 1) as u64,
            ..*old(platform)
        }),
        r is Ok ==> r->Ok_0 == (Agent {
            agent_id,
            authority,
            token_mint,
            name,
            symbol,
            uri,
            bonding_curve: bonding_curve_params,
            total_supply: initial_supply,
            circulating_supply: 0,
            reserve_balance: 0,
            performance: PerformanceMetrics::spec_zero(),
            total_rewards_earned: 0,
            last_reward_distribution: now,
            bump,
        }),
        r is Ok ==> r->Ok_0.well_formed(),
{
    if bonding_curve_params.max_supply == 0 {
        return Err(XGrowthError::InvalidBondingCurve);
    }
    let agent = Agent {
        agent_id,
        authority,
        token_mint,
        name,
        symbol,
        uri,
        bonding_curve: bonding_curve_params,
        total_supply: initial_supply,
        circulating_supply: 0,
        reserve_balance: 0,
        performance: PerformanceMetrics::default(),
        total_rewards_earned: 0,
        last_reward_distribution: now,
        bump,
    };
    platform.total_agents = platform.total_agents + 1;
    Ok(agent)
}

} // verus!
