//! Entering a raffle, and leaving it with what is due.

use vstd::prelude::*;
use crate::errors::RaffleError;
use crate::pubkey::Pubkey;
use crate::states::entrant::Entrant;
use crate::states::raffle::Raffle;

verus! {

/// What an entrant is handed on leaving. An amount of zero is not moved.
#[derive(Clone, Copy, Debug, PartialEq, Eq, Structural)]
pub struct Settlement {
    /// What goes from the pool of the raffle back to the user.
    pub refund: u64,
    /// What is minted to the user.
    pub reward: u64,
}

/// Creates the record of `user` in the raffle at address `raffle_key`, with
/// no tickets and no rewards. The sale must be open at `now`.
pub fn initialize(raffle: &Raffle, now: i64, bump: u8, user: Pubkey, raffle_key: Pubkey) -> (result:
    Result<Entrant, RaffleError>)
    ensures
        match raffle.active_check(now) {
            Err(e) => result == Err::<Entrant, RaffleError>(e),
            Ok(_) => result == Ok::<Entrant, RaffleError>(
                Entrant { bump, user, raffle: raffle_key, tickets: 0, rewards: 0 },
            ),
        },
        result matches Ok(entrant) ==> entrant.well_formed(),
{
    match raffle.assert_active(now) {
        Ok(()) => {},
        Err(e) => {
            return Err(e);
        },
    }
    Ok(Entrant { bump, user, raffle: raffle_key, tickets: 0, rewards: 0 })
}

/// What the entrant is due on leaving at `now`, or the reason for which the
/// settlement is refused.
pub open spec fn settlement_outcome(raffle: Raffle, entrant: Entrant, now: i64) -> Result<
    Settlement,
    RaffleError,
> {
    if raffle.awarded_check(now) is Err {
        Err(raffle.awarded_check(now)->Err_0)
    } else if !entrant.well_formed() || !raffle.refund_computable(
        (entrant.tickets - entrant.rewards) as u64,
    ) || raffle.reward_amount(entrant.rewards) > u64::MAX || (raffle.reward_amount(entrant.rewards)
        > 0 && raffle.rewards_claimed + entrant.rewards > u64::MAX) {
        Err(RaffleError::InvalidCalculation)
    } else {
        Ok(
            Settlement {
                refund: raffle.refundable_proceeds((entrant.tickets - entrant.rewards) as u64) as u64,
                reward: raffle.reward_amount(entrant.rewards) as u64,
            },
        )
    }
}

/// Settles with the entrant at `now` and returns what is to be refunded and
/// what is to be minted; the record of the entrant is to be destroyed after
/// it. The allocation of the raffle must be complete. The refund is the price
/// less the fee on every ticket that earned no reward; the reward is the
/// reward amount on every ticket that did. Where a reward is due, the raffle
/// counts the entrant's rewarded tickets as claimed. A refused settlement
/// changes nothing.
pub fn close(raffle: &mut Raffle, entrant: &Entrant, now: i64) -> (result: Result<
    Settlement,
    RaffleError,
>)
    ensures
        result == settlement_outcome(*old(raffle), *entrant, now),
        result is Ok ==> *final(raffle) == old(raffle).after_settlement(entrant.rewards),
        result matches Ok(due) ==> due.refund + old(raffle).fee * (entrant.tickets
            - entrant.rewards) == old(raffle).price * (entrant.tickets - entrant.rewards),
        result is Err ==> *final(raffle) == *old(raffle),
        old(raffle).well_formed() ==> final(raffle).well_formed(),
{
    match raffle.assert_awarded(now) {
        Ok(()) => {},
        Err(e) => {
            return Err(e);
        },
    }
    let refundable_tickets: u64 = match entrant.get_refundable_tickets() {
        Ok(v) => v,
        Err(e) => {
            return Err(e);
        },
    };
    let refund: u64 = match raffle.get_refunable_proceeds(refundable_tickets) {
        Ok(v) => v,
        Err(e) => {
            return Err(e);
        },
    };
    let reward: u64 = match raffle.get_reward_amount(entrant.rewards) {
        Ok(v) => v,
        Err(e) => {
            return Err(e);
        },
    };
    if reward > 0 {
        match raffle.claim_rewards(entrant.rewards) {
            Ok(()) => {},
            Err(e) => {
                return Err(e);
            },
        }
    }
    Ok(Settlement { refund, reward })
}

} // verus!
