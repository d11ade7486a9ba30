//! The record of one raffle: its configuration and its running counters.

use vstd::prelude::*;
use crate::errors::RaffleError;
use crate::pubkey::Pubkey;

verus! {

/// One raffle.
#[derive(Clone, Copy, Debug, PartialEq, Eq)]
pub struct Raffle {
    /// Nonce with which the address of the record was derived.
    pub bump: u8,
    /// Seed from which the address of the record was derived.
    pub seed: Pubkey,
    /// Cost of one ticket.
    pub price: u64,
    /// The part of the price that is never refunded.
    pub fee: u64,
    /// The currency in which tickets are paid.
    pub currency: Pubkey,
    /// How many tickets earn a reward.
    pub rewards_num: u64,
    /// How much is minted for each rewarded ticket.
    pub rewards_amount: u64,
    /// The asset in which rewards are minted.
    pub reward: Pubkey,
    /// When the sale starts.
    pub start_timestamp: i64,
    /// When the sale ends.
    pub end_timestamp: i64,
    /// How many tickets are on sale; `None` for no bound.
    pub tickets: Option<u64>,
    /// How many tickets one entrant may hold; `None` for no bound.
    pub limit: Option<u64>,
    /// Tickets sold so far.
    pub tickets_sold: u64,
    /// Rewarded tickets allocated so far.
    pub rewards_awarded: u64,
    /// Rewarded tickets whose reward was handed out.
    pub rewards_claimed: u64,
    /// Whether the admin has taken the proceeds.
    pub admin_claimed: bool,
}

/// Whether `count` is below a capacity that may be unbounded.
pub open spec fn below_cap(count: u64, cap: Option<u64>) -> bool {
    match cap {
        Some(c) => count < c,
        None => true,
    }
}

/// Whether `count` fits a capacity that may be unbounded.
pub open spec fn within_cap(count: int, cap: Option<u64>) -> bool {
    match cap {
        Some(c) => count <= c,
        None => true,
    }
}

/// The smaller of two counts.
pub open spec fn min_count(a: u64, b: u64) -> u64 {
    if a <= b {
        a
    } else {
        b
    }
}

impl Raffle {
    /// The rules that a configuration obeys from creation on.
    pub open spec fn configured(&self) -> bool {
        &&& self.fee < self.price
        &&& below_cap(self.rewards_num, self.tickets)
        &&& (self.limit matches Some(l) ==> l >= 1)
        &&& self.start_timestamp < self.end_timestamp
    }

    /// Whether two records differ in their counters at most.
    pub open spec fn same_configuration(&self, other: Raffle) -> bool {
        &&& self.bump == other.bump
        &&& self.seed == other.seed
        &&& self.price == other.price
        &&& self.fee == other.fee
        &&& self.currency == other.currency
        &&& self.rewards_num == other.rewards_num
        &&& self.rewards_amount == other.rewards_amount
        &&& self.reward == other.reward
        &&& self.start_timestamp == other.start_timestamp
        &&& self.end_timestamp == other.end_timestamp
        &&& self.tickets == other.tickets
        &&& self.limit == other.limit
    }

    /// What holds of the counters of one record after every operation.
    pub open spec fn well_formed(&self) -> bool {
        &&& self.configured()
        &&& within_cap(self.tickets_sold as int, self.tickets)
        &&& self.rewards_awarded <= self.rewards_num
    }

    /// Whether every ticket on sale has been sold.
    pub open spec fn sold_out(&self) -> bool {
        self.tickets == Some(self.tickets_sold)
    }

    /// Whether the sale is open at `now`.
    pub open spec fn active(&self, now: i64) -> bool {
        &&& self.start_timestamp <= now
        &&& now < self.end_timestamp
        &&& below_cap(self.tickets_sold, self.tickets)
    }

    /// Whether the sale is over at `now`: by time, or by selling out.
    pub open spec fn ended(&self, now: i64) -> bool {
        now >= self.end_timestamp || self.sold_out()
    }

    /// How many rewarded tickets are to be allocated in all.
    pub open spec fn rewards_due(&self) -> u64 {
        min_count(self.rewards_num, self.tickets_sold)
    }

    /// Whether the sale is over and the allocation complete.
    pub open spec fn awarded(&self, now: i64) -> bool {
        self.ended(now) && self.rewards_awarded == self.rewards_due()
    }

    /// The record after `amount` more tickets were sold.
    pub open spec fn after_purchase(&self, amount: u64) -> Raffle {
        Raffle { tickets_sold: (self.tickets_sold + amount) as u64, ..*self }
    }

    /// The record after `amount` more rewarded tickets were allocated.
    pub open spec fn after_allocation(&self, amount: u64) -> Raffle {
        Raffle { rewards_awarded: (self.rewards_awarded + amount) as u64, ..*self }
    }

    /// The record after the admin took the proceeds.
    pub open spec fn after_claim(&self) -> Raffle {
        Raffle { admin_claimed: true, ..*self }
    }

    /// The record after an entrant with `rewards` rewarded tickets was
    /// settled: the tickets count as claimed where a reward is due on them.
    pub open spec fn after_settlement(&self, rewards: u64) -> Raffle {
        if self.reward_amount(rewards) > 0 {
            Raffle { rewards_claimed: (self.rewards_claimed + rewards) as u64, ..*self }
        } else {
            *self
        }
    }

    /// What `assert_active` answers.
    pub open spec fn active_check(&self, now: i64) -> Result<(), RaffleError> {
        if now < self.start_timestamp {
            Err(RaffleError::RaffleNotStarted)
        } else if now >= self.end_timestamp {
            Err(RaffleError::RaffleEnded)
        } else if !below_cap(self.tickets_sold, self.tickets) {
            Err(RaffleError::RaffleSoldOut)
        } else {
            Ok(())
        }
    }

    /// What `assert_ended` answers.
    pub open spec fn ended_check(&self, now: i64) -> Result<(), RaffleError> {
        if self.ended(now) {
            Ok(())
        } else {
            Err(RaffleError::RaffleStillActive)
        }
    }

    /// What `assert_awarded` answers.
    pub open spec fn awarded_check(&self, now: i64) -> Result<(), RaffleError> {
        if !self.ended(now) {
            Err(RaffleError::RaffleStillActive)
        } else if self.rewards_awarded != self.rewards_due() {
            Err(RaffleError::RaffleRewardsNotSet)
        } else {
            Ok(())
        }
    }

    /// What `assert_claimable` answers.
    pub open spec fn claimable_check(&self, now: i64) -> Result<(), RaffleError> {
        if self.awarded_check(now) is Err {
            self.awarded_check(now)
        } else if self.admin_claimed {
            Err(RaffleError::RaffleAdminAlreadyClaimed)
        } else {
            Ok(())
        }
    }

    /// What `assert_closeable` answers.
    pub open spec fn closeable_check(&self, now: i64) -> Result<(), RaffleError> {
        if self.awarded_check(now) is Err {
            self.awarded_check(now)
        } else if !self.admin_claimed {
            Err(RaffleError::RaffleAdminNotClaimed)
        } else if self.rewards_claimed != self.rewards_num {
            Err(RaffleError::RaffleRewardsNotClaimed)
        } else {
            Ok(())
        }
    }

    /// Succeeds while tickets can be bought at `now`: the sale has started,
    /// has not reached its end, and tickets are left.
    pub fn assert_active(&self, now: i64) -> (result: Result<(), RaffleError>)
        ensures
            result == self.active_check(now),
            result is Ok <==> self.active(now),
    {
        if now < self.start_timestamp {
            return Err(RaffleError::RaffleNotStarted);
        }
        if now >= self.end_timestamp {
            return Err(RaffleError::RaffleEnded);
        }
        match self.tickets {
            Some(cap) => {
                if self.tickets_sold >= cap {
                    return Err(RaffleError::RaffleSoldOut);
                }
            },
            None => {},
        }
        Ok(())
    }

    /// Succeeds once the sale is over at `now`, by time or by selling out.
    pub fn assert_ended(&self, now: i64) -> (result: Result<(), RaffleError>)
        ensures
            result == self.ended_check(now),
            result is Ok <==> self.ended(now),
    {
        let sold_out = match self.tickets {
            Some(cap) => self.tickets_sold == cap,
            None => false,
        };
        if now >= self.end_timestamp || sold_out {
            Ok(())
        } else {
            Err(RaffleError::RaffleStillActive)
        }
    }

    /// Succeeds once the sale is over and every reward that is due has been
    /// allocated.
    pub fn assert_awarded(&self, now: i64) -> (result: Result<(), RaffleError>)
        ensures
            result == self.awarded_check(now),
            result is Ok <==> self.awarded(now),
    {
        match self.assert_ended(now) {
            Ok(()) => {},
            Err(e) => {
                return Err(e);
            },
        }
        let due: u64 = if self.rewards_num <= self.tickets_sold {
            self.rewards_num
        } else {
            self.tickets_sold
        };
        if self.rewards_awarded != due {
            return Err(RaffleError::RaffleRewardsNotSet);
        }
        Ok(())
    }

    /// Succeeds when the admin may take the proceeds: the allocation is
    /// complete and the proceeds have not been taken.
    pub fn assert_claimable(&self, now: i64) -> (result: Result<(), RaffleError>)
        ensures
            result == self.claimable_check(now),
            result is Ok <==> self.awarded(now) && !self.admin_claimed,
    {
        match self.assert_awarded(now) {
            Ok(()) => {},
            Err(e) => {
                return Err(e);
            },
        }
        if self.admin_claimed {
            return Err(RaffleError::RaffleAdminAlreadyClaimed);
        }
        Ok(())
    }

    /// Succeeds when the raffle may be destroyed: the allocation is complete,
    /// the admin has taken the proceeds and every rewarded ticket was claimed.
    pub fn assert_closeable(&self, now: i64) -> (result: Result<(), RaffleError>)
        ensures
            result == self.closeable_check(now),
            result is Ok <==> self.awarded(now) && self.admin_claimed
                && self.rewards_claimed == self.rewards_num,
    {
        match self.assert_awarded(now) {
            Ok(()) => {},
            Err(e) => {
                return Err(e);
            },
        }
        if !self.admin_claimed {
            return Err(RaffleError::RaffleAdminNotClaimed);
        }
        if self.rewards_claimed != self.rewards_num {
            return Err(RaffleError::RaffleRewardsNotClaimed);
        }
        Ok(())
    }
}

/// A product of two counts is never negative.
pub proof fn lemma_product_nonnegative(a: u64, b: u64)
    ensures
        0 <= a * b,
{
    assert(0 <= a * b) by (nonlinear_arith);
}

/// The settlement arithmetic. Every amount is computed in full and refused
/// with `InvalidCalculation` where it leaves the range of a counter.
impl Raffle {
    /// What is minted for `tickets` rewarded tickets.
    pub open spec fn reward_amount(&self, tickets: u64) -> int {
        self.rewards_amount * tickets
    }

    /// What goes back to the buyer of `tickets` tickets that earned no reward:
    /// their price less the fee on each.
    pub open spec fn refundable_proceeds(&self, tickets: u64) -> int {
        self.price * tickets - self.fee * tickets
    }

    /// Whether the refund on `tickets` tickets can be computed: both products
    /// fit a counter and the fees do not exceed the prices.
    pub open spec fn refund_computable(&self, tickets: u64) -> bool {
        &&& self.price * tickets <= u64::MAX
        &&& self.fee * tickets <= u64::MAX
        &&& self.fee * tickets <= self.price * tickets
    }

    /// What the admin keeps: the full price of every rewarded ticket and the
    /// fee on every other ticket sold.
    pub open spec fn authority_proceeds(&self) -> int {
        self.rewards_awarded * self.price + (self.tickets_sold - self.rewards_awarded) * self.fee
    }

    /// Whether the admin's take can be computed: no more rewards were
    /// allocated than tickets sold, and the take fits a counter.
    pub open spec fn authority_proceeds_computable(&self) -> bool {
        &&& self.rewards_awarded <= self.tickets_sold
        &&& self.authority_proceeds() <= u64::MAX
    }

    /// Counts `tickets` more rewarded tickets as claimed. Fails with
    /// `InvalidCalculation`, changing nothing, where the count would leave
    /// the range of the counter.
    pub fn claim_rewards(&mut self, tickets: u64) -> (result: Result<(), RaffleError>)
        ensures
            old(self).rewards_claimed + tickets <= u64::MAX ==> result is Ok && *final(self) == (
            Raffle { rewards_claimed: (old(self).rewards_claimed + tickets) as u64, ..*old(self) }),
            old(self).rewards_claimed + tickets > u64::MAX ==> result == Err::<(), RaffleError>(
                RaffleError::InvalidCalculation,
            ) && *final(self) == *old(self),
    {
        match self.rewards_claimed.checked_add(tickets) {
            Some(claimed) => {
                self.rewards_claimed = claimed;
                Ok(())
            },
            None => Err(RaffleError::InvalidCalculation),
        }
    }

    /// The amount to mint for `tickets` rewarded tickets, or
    /// `InvalidCalculation` where it does not fit a counter.
    pub fn get_reward_amount(&self, tickets: u64) -> (result: Result<u64, RaffleError>)
        ensures
            self.reward_amount(tickets) <= u64::MAX ==> result == Ok::<u64, RaffleError>(
                self.reward_amount(tickets) as u64,
            ),
            self.reward_amount(tickets) > u64::MAX ==> result == Err::<u64, RaffleError>(
                RaffleError::InvalidCalculation,
            ),
    {
        match self.rewards_amount.checked_mul(tickets) {
            Some(reward_amount) => Ok(reward_amount),
            None => Err(RaffleError::InvalidCalculation),
        }
    }

    /// The amount to refund on `tickets` tickets that earned no reward, or
    /// `InvalidCalculation` where it cannot be computed. The refund and the
    /// fees together make up exactly what was paid for the tickets.
    pub fn get_refunable_proceeds(&self, tickets: u64) -> (result: Result<u64, RaffleError>)
        ensures
            self.refund_computable(tickets) ==> result == Ok::<u64, RaffleError>(
                self.refundable_proceeds(tickets) as u64,
            ),
            !self.refund_computable(tickets) ==> result == Err::<u64, RaffleError>(
                RaffleError::InvalidCalculation,
            ),
            result matches Ok(refund) ==> refund + self.fee * tickets == self.price * tickets,
    {
        let paid: u64 = match self.price.checked_mul(tickets) {
            Some(v) => v,
            None => {
                return Err(RaffleError::InvalidCalculation);
            },
        };
        let fee_proceeds: u64 = match self.fee.checked_mul(tickets) {
            Some(v) => v,
            None => {
                return Err(RaffleError::InvalidCalculation);
            },
        };
        match paid.checked_sub(fee_proceeds) {
            Some(refundable_proceeds) => Ok(refundable_proceeds),
            None => Err(RaffleError::InvalidCalculation),
        }
    }

    /// The amount that the admin keeps, or `InvalidCalculation` where it
    /// cannot be computed.
    pub fn get_authority_proceeds(&self) -> (result: Result<u64, RaffleError>)
        ensures
            self.authority_proceeds_computable() ==> result == Ok::<u64, RaffleError>(
                self.authority_proceeds() as u64,
            ),
            !self.authority_proceeds_computable() ==> result == Err::<u64, RaffleError>(
                RaffleError::InvalidCalculation,
            ),
    {
        proof {
            lemma_product_nonnegative(self.price, self.rewards_awarded);
            assert(self.price * self.rewards_awarded == self.rewards_awarded * self.price)
                by (nonlinear_arith);
        }
        let non_refundable_proceeds: u64 = match self.price.checked_mul(self.rewards_awarded) {
            Some(v) => v,
            None => {
                proof {
                    if self.rewards_awarded <= self.tickets_sold {
                        let rest: u64 = (self.tickets_sold - self.rewards_awarded) as u64;
                        lemma_product_nonnegative(rest, self.fee);
                    }
                }
                return Err(RaffleError::InvalidCalculation);
            },
        };
        let refundable_tickets: u64 = match self.tickets_sold.checked_sub(self.rewards_awarded) {
            Some(v) => v,
            None => {
                return Err(RaffleError::InvalidCalculation);
            },
        };
        proof {
            lemma_product_nonnegative(self.fee, refundable_tickets);
            assert(self.fee * refundable_tickets == refundable_tickets * self.fee)
                by (nonlinear_arith);
        }
        let fee_proceeds: u64 = match self.fee.checked_mul(refundable_tickets) {
            Some(v) => v,
            None => {
                return Err(RaffleError::InvalidCalculation);
            },
        };
        match non_refundable_proceeds.checked_add(fee_proceeds) {
            Some(total_proceeds) => Ok(total_proceeds),
            None => Err(RaffleError::InvalidCalculation),
        }
    }
}

} // verus!
