//! The record of one user in one raffle.

use vstd::prelude::*;
use crate::errors::RaffleError;
use crate::pubkey::Pubkey;

verus! {

/// What one user holds in one raffle.
#[derive(Clone, Copy, Debug, PartialEq, Eq)]
pub struct Entrant {
    /// Nonce with which the address of the record was derived.
    pub bump: u8,
    /// The user.
    pub user: Pubkey,
    /// The raffle.
    pub raffle: Pubkey,
    /// Tickets bought.
    pub tickets: u64,
    /// Tickets, among those bought, that were allocated a reward.
    pub rewards: u64,
}

impl Entrant {
    /// No more tickets are rewarded than were bought.
    pub open spec fn well_formed(&self) -> bool {
        self.rewards <= self.tickets
    }

    /// The tickets that earned no reward, whose price less the fee goes back
    /// to the user.
    pub open spec fn refundable_tickets(&self) -> int {
        self.tickets - self.rewards
    }

    /// The record after `amount` more tickets were bought.
    pub open spec fn after_purchase(&self, amount: u64) -> Entrant {
        Entrant { tickets: (self.tickets + amount) as u64, ..*self }
    }

    /// The record after `amount` rewarded tickets were allocated.
    pub open spec fn after_allocation(&self, amount: u64) -> Entrant {
        Entrant { rewards: amount, ..*self }
    }

    /// Succeeds while no reward has been allocated to the entrant.
    pub fn assert_not_awarded(&self) -> (result: Result<(), RaffleError>)
        ensures
            self.rewards == 0 ==> result == Ok::<(), RaffleError>(()),
            self.rewards != 0 ==> result == Err::<(), RaffleError>(
                RaffleError::EntrantAlreadyAwarded,
            ),
    {
        if self.rewards != 0 {
            return Err(RaffleError::EntrantAlreadyAwarded);
        }
        Ok(())
    }

    /// The number of rewarded tickets.
    pub fn get_rewards(&self) -> (result: Result<u64, RaffleError>)
        ensures
            result == Ok::<u64, RaffleError>(self.rewards),
    {
        Ok(self.rewards)
    }

    /// The number of tickets that earned no reward. Fails with
    /// `InvalidCalculation` on a record with more rewards than tickets.
    pub fn get_refundable_tickets(&self) -> (result: Result<u64, RaffleError>)
        ensures
            self.well_formed() ==> result == Ok::<u64, RaffleError>(
                (self.tickets - self.rewards) as u64,
            ),
            !self.well_formed() ==> result == Err::<u64, RaffleError>(
                RaffleError::InvalidCalculation,
            ),
            result matches Ok(n) ==> n == self.refundable_tickets(),
    {
        match self.tickets.checked_sub(self.rewards) {
            Some(refundable_tickets) => Ok(refundable_tickets),
            None => Err(RaffleError::InvalidCalculation),
        }
    }
}

} // verus!
