//! Creating a raffle, selling its tickets, allocating its rewards and
//! settling with the admin.

use vstd::prelude::*;
use crate::errors::RaffleError;
use crate::pubkey::Pubkey;
use crate::states::admin::AdminSettings;
use crate::states::entrant::Entrant;
use crate::states::raffle::{below_cap, within_cap, Raffle};

verus! {

/// The fee that a configuration asks for: none stands for zero.
pub open spec fn fee_or_zero(fee: Option<u64>) -> u64 {
    match fee {
        Some(f) => f,
        None => 0,
    }
}

/// The first rule that a configuration breaks at `now`, if it breaks any.
pub open spec fn config_error(
    price: u64,
    fee: Option<u64>,
    rewards_num: u64,
    tickets: Option<u64>,
    limit: Option<u64>,
    start_timestamp: i64,
    end_timestamp: i64,
    now: i64,
) -> Option<RaffleError> {
    if fee_or_zero(fee) >= price {
        Some(RaffleError::FeeGreaterThanPrice)
    } else if !below_cap(rewards_num, tickets) {
        Some(RaffleError::RewardsNumGreaterThanTickets)
    } else if limit == Some(0u64) {
        Some(RaffleError::LimitLessThanOne)
    } else if start_timestamp >= end_timestamp {
        Some(RaffleError::StartAfterEndTimestamp)
    } else if now >= end_timestamp {
        Some(RaffleError::EndTimestampAlreadyPassed)
    } else {
        None
    }
}

/// Creates a raffle at `now`, on behalf of the admin. The configuration is
/// refused with the first rule it breaks: the fee must be below the price, the
/// rewarded tickets fewer than the tickets on sale, a limit per entrant at
/// least one, and the sale must start before it ends and end after `now`.
/// A raffle that is created has sold, awarded and claimed nothing.
pub fn initialize(
    admin_settings: &AdminSettings,
    authority: &Pubkey,
    now: i64,
    bump: u8,
    seed: Pubkey,
    currency: Pubkey,
    reward: Pubkey,
    price: u64,
    rewards_num: u64,
    rewards_amount: u64,
    start_timestamp: i64,
    end_timestamp: i64,
    fee: Option<u64>,
    tickets: Option<u64>,
    limit: Option<u64>,
) -> (result: Result<Raffle, RaffleError>)
    requires
        admin_settings.authorizes(*authority),
    ensures
        match config_error(
            price,
            fee,
            rewards_num,
            tickets,
            limit,
            start_timestamp,
            end_timestamp,
            now,
        ) {
            Some(e) => result == Err::<Raffle, RaffleError>(e),
            None => result == Ok::<Raffle, RaffleError>(
                Raffle {
                    bump,
                    seed,
                    price,
                    fee: fee_or_zero(fee),
                    currency,
                    rewards_num,
                    rewards_amount,
                    reward,
                    start_timestamp,
                    end_timestamp,
                    tickets,
                    limit,
                    tickets_sold: 0,
                    rewards_awarded: 0,
                    rewards_claimed: 0,
                    admin_claimed: false,
                },
            ),
        },
        result matches Ok(raffle) ==> raffle.well_formed(),
{
    let fee_value: u64 = match fee {
        Some(f) => f,
        None => 0,
    };
    if fee_value >= price {
        return Err(RaffleError::FeeGreaterThanPrice);
    }
    match tickets {
        Some(cap) => {
            if rewards_num >= cap {
                return Err(RaffleError::RewardsNumGreaterThanTickets);
            }
        },
        None => {},
    }
    match limit {
        Some(l) => {
            if l == 0 {
                return Err(RaffleError::LimitLessThanOne);
            }
        },
        None => {},
    }
    if start_timestamp >= end_timestamp {
        return Err(RaffleError::StartAfterEndTimestamp);
    }
    if now >= end_timestamp {
        return Err(RaffleError::EndTimestampAlreadyPassed);
    }
    Ok(
        Raffle {
            bump,
            seed,
            price,
            fee: fee_value,
            currency,
            rewards_num,
            rewards_amount,
            reward,
            start_timestamp,
            end_timestamp,
            tickets,
            limit,
            tickets_sold: 0,
            rewards_awarded: 0,
            rewards_claimed: 0,
            admin_claimed: false,
        },
    )
}

/// What a purchase of `amount` tickets at `now` comes to: the price to pay,
/// or the reason for which it is refused.
pub open spec fn purchase_outcome(raffle: Raffle, entrant: Entrant, now: i64, amount: u64) -> Result<
    u64,
    RaffleError,
> {
    if raffle.active_check(now) is Err {
        Err(raffle.active_check(now)->Err_0)
    } else if raffle.price * amount > u64::MAX || raffle.tickets_sold + amount > u64::MAX
        || entrant.tickets + amount > u64::MAX {
        Err(RaffleError::InvalidCalculation)
    } else if !within_cap(raffle.tickets_sold + amount, raffle.tickets) {
        Err(RaffleError::RaffleTicketsUnavailable)
    } else if !within_cap(entrant.tickets + amount, raffle.limit) {
        Err(RaffleError::EntrantTicketLimitReached)
    } else {
        Ok((raffle.price * amount) as u64)
    }
}

/// Sells `amount` tickets to the entrant at `now` and returns the price that
/// the buyer is to pay into the pool of the raffle. The sale must be open.
/// The purchase is refused where an amount leaves the range of a counter,
/// where fewer tickets are left than asked for, and where it would take the
/// entrant past the limit per entrant. On success both counts of tickets grow
/// by `amount`; a refused purchase changes nothing.
pub fn buy_tickets(raffle: &mut Raffle, entrant: &mut Entrant, now: i64, amount: u64) -> (result:
    Result<u64, RaffleError>)
    ensures
        result == purchase_outcome(*old(raffle), *old(entrant), now, amount),
        result is Ok ==> *final(raffle) == old(raffle).after_purchase(amount) && *final(entrant)
            == old(entrant).after_purchase(amount),
        result is Ok ==> final(raffle).tickets_sold == old(raffle).tickets_sold + amount
            && final(entrant).tickets == old(entrant).tickets + amount,
        result is Ok && amount >= 1 ==> final(raffle).tickets_sold > old(raffle).tickets_sold,
        result is Ok ==> within_cap(final(raffle).tickets_sold as int, final(raffle).tickets)
            && within_cap(final(entrant).tickets as int, final(raffle).limit),
        result is Err ==> *final(raffle) == *old(raffle) && *final(entrant) == *old(entrant),
        old(raffle).well_formed() ==> final(raffle).well_formed(),
        old(entrant).well_formed() ==> final(entrant).well_formed(),
{
    match raffle.assert_active(now) {
        Ok(()) => {},
        Err(e) => {
            return Err(e);
        },
    }
    let total_price: u64 = match raffle.price.checked_mul(amount) {
        Some(v) => v,
        None => {
            return Err(RaffleError::InvalidCalculation);
        },
    };
    let total_tickets: u64 = match raffle.tickets_sold.checked_add(amount) {
        Some(v) => v,
        None => {
            return Err(RaffleError::InvalidCalculation);
        },
    };
    let entrant_tickets: u64 = match entrant.tickets.checked_add(amount) {
        Some(v) => v,
        None => {
            return Err(RaffleError::InvalidCalculation);
        },
    };
    match raffle.tickets {
        Some(cap) => {
            if total_tickets > cap {
                return Err(RaffleError::RaffleTicketsUnavailable);
            }
        },
        None => {},
    }
    match raffle.limit {
        Some(l) => {
            if entrant_tickets > l {
                return Err(RaffleError::EntrantTicketLimitReached);
            }
        },
        None => {},
    }
    raffle.tickets_sold = total_tickets;
    entrant.tickets = entrant_tickets;
    Ok(total_price)
}

/// Whether `amount` rewarded tickets can be allocated to the entrant at
/// `now`, or the reason for which the allocation is refused.
pub open spec fn allocation_outcome(raffle: Raffle, entrant: Entrant, now: i64, amount: u64) -> Result<
    (),
    RaffleError,
> {
    if !raffle.ended(now) {
        Err(RaffleError::RaffleStillActive)
    } else if entrant.rewards != 0 {
        Err(RaffleError::EntrantAlreadyAwarded)
    } else if raffle.rewards_awarded + amount > u64::MAX {
        Err(RaffleError::InvalidCalculation)
    } else if amount > entrant.tickets {
        Err(RaffleError::RewardsNumGreaterThanTicketsBought)
    } else if raffle.rewards_awarded + amount > raffle.rewards_num {
        Err(RaffleError::RewardsAmountGreaterThanTotal)
    } else {
        Ok(())
    }
}

/// Allocates `amount` rewarded tickets to the entrant, on behalf of the
/// admin. The sale must be over and the entrant must hold no reward yet. The
/// allocation is refused where it exceeds the tickets that the entrant bought,
/// or takes the rewards allocated in all past the number of rewarded tickets
/// of the raffle. On success the raffle counts `amount` more rewards and the
/// entrant holds `amount`; a refused allocation changes nothing.
pub fn set_rewards(
    admin_settings: &AdminSettings,
    authority: &Pubkey,
    raffle: &mut Raffle,
    entrant: &mut Entrant,
    now: i64,
    amount: u64,
) -> (result: Result<(), RaffleError>)
    requires
        admin_settings.authorizes(*authority),
    ensures
        result == allocation_outcome(*old(raffle), *old(entrant), now, amount),
        result is Ok ==> *final(raffle) == old(raffle).after_allocation(amount) && *final(entrant)
            == old(entrant).after_allocation(amount),
        result is Ok ==> final(raffle).rewards_awarded == old(raffle).rewards_awarded + amount,
        result is Err ==> *final(raffle) == *old(raffle) && *final(entrant) == *old(entrant),
        final(raffle).rewards_awarded >= old(raffle).rewards_awarded,
        result is Ok ==> final(raffle).rewards_awarded <= final(raffle).rewards_num
            && final(entrant).well_formed(),
        old(raffle).well_formed() ==> final(raffle).well_formed(),
        old(entrant).well_formed() ==> final(entrant).well_formed(),
{
    match raffle.assert_ended(now) {
        Ok(()) => {},
        Err(e) => {
            return Err(e);
        },
    }
    match entrant.assert_not_awarded() {
        Ok(()) => {},
        Err(e) => {
            return Err(e);
        },
    }
    let rewards_awarded: u64 = match raffle.rewards_awarded.checked_add(amount) {
        Some(v) => v,
        None => {
            return Err(RaffleError::InvalidCalculation);
        },
    };
    if amount > entrant.tickets {
        return Err(RaffleError::RewardsNumGreaterThanTicketsBought);
    }
    if rewards_awarded > raffle.rewards_num {
        return Err(RaffleError::RewardsAmountGreaterThanTotal);
    }
    raffle.rewards_awarded = rewards_awarded;
    entrant.rewards = amount;
    Ok(())
}

/// What a claim of the proceeds at `now` comes to: the amount that goes to
/// the admin, or the reason for which the claim is refused.
pub open spec fn claim_outcome(raffle: Raffle, now: i64) -> Result<u64, RaffleError> {
    if raffle.claimable_check(now) is Err {
        Err(raffle.claimable_check(now)->Err_0)
    } else if !raffle.authority_proceeds_computable() {
        Err(RaffleError::InvalidCalculation)
    } else {
        Ok(raffle.authority_proceeds() as u64)
    }
}

/// Hands the proceeds to the admin: returns the amount that is to be moved
/// from the pool to the admin, and marks the proceeds as taken. The allocation
/// must be complete and the proceeds not taken before. A refused claim changes
/// nothing.
pub fn claim_proceeds(
    admin_settings: &AdminSettings,
    authority: &Pubkey,
    raffle: &mut Raffle,
    now: i64,
) -> (result: Result<u64, RaffleError>)
    requires
        admin_settings.authorizes(*authority),
    ensures
        result == claim_outcome(*old(raffle), now),
        result is Ok ==> *final(raffle) == old(raffle).after_claim(),
        result is Err ==> *final(raffle) == *old(raffle),
        old(raffle).well_formed() ==> final(raffle).well_formed(),
{
    match raffle.assert_claimable(now) {
        Ok(()) => {},
        Err(e) => {
            return Err(e);
        },
    }
    let authority_proceeds: u64 = match raffle.get_authority_proceeds() {
        Ok(v) => v,
        Err(e) => {
            return Err(e);
        },
    };
    raffle.admin_claimed = true;
    Ok(authority_proceeds)
}

/// The proceeds are taken once: after a claim that succeeded, a claim at the
/// same or any later time is refused with `RaffleAdminAlreadyClaimed`.
pub proof fn lemma_proceeds_claimed_once(raffle: Raffle, now: i64, later: i64)
    requires
        claim_outcome(raffle, now) is Ok,
        now <= later,
    ensures
        claim_outcome(raffle.after_claim(), later) == Err::<u64, RaffleError>(
            RaffleError::RaffleAdminAlreadyClaimed,
        ),
{
}

/// Decides whether the raffle may be destroyed at `now` and its pool
/// released: the allocation is complete, the admin has taken the proceeds and
/// every rewarded ticket has been claimed.
pub fn close(admin_settings: &AdminSettings, authority: &Pubkey, raffle: &Raffle, now: i64) -> (result:
    Result<(), RaffleError>)
    requires
        admin_settings.authorizes(*authority),
    ensures
        result == raffle.closeable_check(now),
        result is Ok <==> raffle.awarded(now) && raffle.admin_claimed && raffle.rewards_claimed
            == raffle.rewards_num,
{
    raffle.assert_closeable(now)
}

} // verus!
