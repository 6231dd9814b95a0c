use vstd::prelude::*;
use crate::errors::XGrowthError;
use crate::identity::Identity;
use crate::state::{Agent, PerformanceMetrics, Platform};

verus! {

/// Adds a report of engagement to an agent's counters, on behalf of
/// `reporter`, at time `now`.
///
/// Only the platform's oracle may report: from any other identity the call
/// fails with `UnauthorizedOracle`. A report from the oracle that would take
/// one of the eight counters past 64 bits fails with `CounterOverflow`.
/// Whenever the call fails the agent is left as it was. Otherwise each delta
/// is added to its total and to its daily counter, and the time of the
/// report is noted. No call touches anything but the counters, and no call
/// lowers a total.
pub fn update_performance(
    agent: &mut Agent,
    platform: &Platform,
    reporter: &Identity,
    likes: u64,
    views: u64,
    comments: u64,
    new_followers: u64,
    now: i64,
) -> (r: Result<(), XGrowthError>)
    ensures
        r is Ok <==> reporter@ == platform.oracle@ && old(agent).performance.spec_can_record(
            likes,
            views,
            comments,
            new_followers,
        ),
        reporter@ != platform.oracle@ ==> r == Err::<(), XGrowthError>(
            XGrowthError::UnauthorizedOracle,
        ),
        reporter@ == platform.oracle@ && !old(agent).performance.spec_can_record(
            likes,
            views,
            comments,
            new_followers,
        ) ==> r == Err::<(), XGrowthError>(XGrowthError::CounterOverflow),
        r is Err ==> *final(agent) == *old(agent),
        r is Ok ==> *final(agent) == (Agent {
            performance: old(agent).performance.spec_recorded(
                likes,
                views,
                comments,
                new_followers,
                now,
            ),
            ..*old(agent)
        }),
        *final(agent) == (Agent { performance: final(agent).performance, ..*old(agent) }),
        final(agent).performance.total_likes >= old(agent).performance.total_likes,
        final(agent).performance.total_views >= old(agent).performance.total_views,
        final(agent).performance.total_comments >= old(agent).performance.total_comments,
        final(agent).performance.total_followers >= old(agent).performance.total_followers,
{
    if !reporter.same_as(&platform.oracle) {
        return Err(XGrowthError::UnauthorizedOracle);
    }
    if !agent.performance.can_record(likes, views, comments, new_followers) {
        return Err(XGrowthError::CounterOverflow);
    }
    let before: PerformanceMetrics = agent.performance;
    agent.performance = PerformanceMetrics {
        total_likes: before.total_likes + likes,
        total_views: before.total_views + views,
        total_comments: before.total_comments + comments,
        total_followers: before.total_followers + new_followers,
        last_updated: now,
        daily_likes: before.daily_likes + likes,
        daily_views: before.daily_views + views,
        daily_comments: before.daily_comments + comments,
        daily_new_followers: before.daily_new_followers + new_followers,
    };
    Ok(())
}

/// Closes an agent's daily window at time `now` and returns the score of the
/// window that was closed.
///
/// The daily counters are cleared and the time of the distribution is
/// noted; the totals, the market state and every other field stay. No
/// reward is credited to any holder here.
pub fn distribute_rewards(agent: &mut Agent, now: i64) -> (score: u128)
    ensures
        score == old(agent).performance.spec_score(),
        *final(agent) == (Agent {
            performance: old(agent).performance.spec_daily_cleared(),
            last_reward_distribution: now,
            ..*old(agent)
        }),
{
    let score: u128 = agent.performance.calculate_score();
    agent.last_reward_distribution = now;
    agent.performance.reset_daily_metrics();
    score
}

} // verus!
