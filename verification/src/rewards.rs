use vstd::prelude::*;
use crate::errors::XGrowthError;
use crate::state::UserRewards;

verus! {

/// Decides a claim and returns the amount that the ledger has to pay from
/// the reward pool to the user: all that is pending. The record is not
/// changed: once the ledger has paid, `UserRewards::apply_claim` records it.
///
/// Fails with `NoRewardsToClaim` when nothing is pending.
pub fn claim_rewards(user_rewards: &UserRewards) -> (r: Result<u64, XGrowthError>)
    ensures
        r is Err <==> user_rewards.pending_rewards == 0,
        r is Err ==> r->Err_0 == XGrowthError::NoRewardsToClaim,
        r is Ok ==> r->Ok_0 == user_rewards.pending_rewards,
{
    let amount: u64 = user_rewards.pending_rewards;
    if amount == 0 {
        return Err(XGrowthError::NoRewardsToClaim);
    }
    Ok(amount)
}

impl UserRewards {
    /// Whether what is pending can be added to what was claimed.
    pub open spec fn spec_can_claim(self) -> bool {
        self.claimed_rewards + self.pending_rewards <= u64::MAX
    }

    /// This record after its pending rewards were paid at time `now`.
    pub open spec fn spec_after_claim(self, now: i64) -> UserRewards
        recommends
            self.spec_can_claim(),
    {
        UserRewards {
            claimed_rewards: (self.claimed_rewards + self.pending_rewards) as u64,
            pending_rewards: 0,
            last_claim: now,
            ..self
        }
    }

    /// Exec form of `spec_can_claim`.
    pub fn can_claim(&self) -> (r: bool)
        ensures
            r == self.spec_can_claim(),
    {
        self.pending_rewards <= u64::MAX - self.claimed_rewards
    }

    /// Records a claim that the ledger has paid at time `now`: what was
    /// pending is added to what was claimed, nothing is pending any more,
    /// and the time is noted.
    pub fn apply_claim(&mut self, now: i64)
        requires
            old(self).spec_can_claim(),
        ensures
            *final(self) == old(self).spec_after_claim(now),
            final(self).claimed_rewards >= old(self).claimed_rewards,
            final(self).pending_rewards == 0,
    {
        self.claimed_rewards = self.claimed_rewards + self.pending_rewards;
        self.pending_rewards = 0;
        self.last_claim = now;
    }
}

} // verus!
