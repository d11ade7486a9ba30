//! The stages through which a raffle passes, from creation to settlement.

use vstd::prelude::*;
use crate::states::raffle::Raffle;

verus! {

/// Where a raffle stands. A raffle that was closed has no record and so no
/// stage.
#[derive(Clone, Copy, Debug, PartialEq, Eq, Structural)]
pub enum Stage {
    /// Created; the sale has not started.
    Pending,
    /// Tickets are on sale.
    Active,
    /// The sale is over, by time or by selling out; rewards are being
    /// allocated.
    Ended,
    /// Every reward that is due has been allocated; entrants and admin may
    /// settle.
    Awarded,
    /// The admin has taken the proceeds.
    AdminClaimed,
}

impl Stage {
    /// The place of the stage in the order in which stages are passed.
    pub open spec fn rank(self) -> nat {
        match self {
            Stage::Pending => 0,
            Stage::Active => 1,
            Stage::Ended => 2,
            Stage::Awarded => 3,
            Stage::AdminClaimed => 4,
        }
    }
}

impl Raffle {
    /// The stage of the raffle at `now`.
    pub open spec fn stage_at(&self, now: i64) -> Stage {
        if self.ended(now) {
            if self.rewards_awarded != self.rewards_due() {
                Stage::Ended
            } else if self.admin_claimed {
                Stage::AdminClaimed
            } else {
                Stage::Awarded
            }
        } else if now >= self.start_timestamp {
            Stage::Active
        } else {
            Stage::Pending
        }
    }

    /// Tells the stage of the raffle at `now`.
    pub fn stage(&self, now: i64) -> (stage: Stage)
        ensures
            stage == self.stage_at(now),
    {
        let sold_out = match self.tickets {
            Some(cap) => self.tickets_sold == cap,
            None => false,
        };
        if now >= self.end_timestamp || sold_out {
            let due: u64 = if self.rewards_num <= self.tickets_sold {
                self.rewards_num
            } else {
                self.tickets_sold
            };
            if self.rewards_awarded != due {
                Stage::Ended
            } else if self.admin_claimed {
                Stage::AdminClaimed
            } else {
                Stage::Awarded
            }
        } else if now >= self.start_timestamp {
            Stage::Active
        } else {
            Stage::Pending
        }
    }

    /// Each lifecycle check succeeds in the stages that it names: tickets are
    /// sold while the raffle is active, rewards are allocated from its end on,
    /// entrants settle once it is awarded, the admin claims while it is
    /// awarded and unclaimed, and it closes after the admin's claim once every
    /// rewarded ticket was claimed.
    pub proof fn lemma_checks_follow_stage(self, now: i64)
        requires
            self.well_formed(),
        ensures
            self.active_check(now) is Ok <==> self.stage_at(now) == Stage::Active,
            self.ended_check(now) is Ok <==> self.stage_at(now).rank() >= Stage::Ended.rank(),
            self.awarded_check(now) is Ok <==> self.stage_at(now).rank() >= Stage::Awarded.rank(),
            self.claimable_check(now) is Ok <==> self.stage_at(now) == Stage::Awarded,
            self.closeable_check(now) is Ok <==> self.stage_at(now) == Stage::AdminClaimed
                && self.rewards_claimed == self.rewards_num,
    {
    }

    /// Time alone never takes a raffle back to an earlier stage.
    pub proof fn lemma_stage_advances_with_time(self, now: i64, later: i64)
        requires
            self.configured(),
            now <= later,
        ensures
            self.stage_at(now).rank() <= self.stage_at(later).rank(),
    {
    }
}

} // verus!
