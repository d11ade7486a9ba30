//! The reasons for which an operation on the ledger is refused.

use vstd::prelude::*;

verus! {

/// Why an operation was refused. A refused operation changes nothing.
#[derive(Clone, Copy, Debug, PartialEq, Eq, Structural)]
pub enum RaffleError {
    /// A sum, difference or product left the range of the counters.
    InvalidCalculation,
    /// The sale would not start before it ends.
    StartAfterEndTimestamp,
    /// The sale would end in the past.
    EndTimestampAlreadyPassed,
    /// The fee is not smaller than the price.
    FeeGreaterThanPrice,
    /// The rewarded tickets are not fewer than the tickets on sale.
    RewardsNumGreaterThanTickets,
    /// The limit of tickets per entrant is zero.
    LimitLessThanOne,
    /// Fewer tickets are left than were asked for.
    RaffleTicketsUnavailable,
    /// The purchase would take the entrant past the limit per entrant.
    EntrantTicketLimitReached,
    /// The sale has not started.
    RaffleNotStarted,
    /// The sale is over.
    RaffleEnded,
    /// More rewards than the entrant holds tickets.
    RewardsNumGreaterThanTicketsBought,
    /// More rewards than the raffle has to give.
    RewardsAmountGreaterThanTotal,
    /// Every ticket has been sold.
    RaffleSoldOut,
    /// The sale is still running.
    RaffleStillActive,
    /// Not all rewards have been allocated.
    RaffleRewardsNotSet,
    /// Not enough tickets are left.
    NotEnoughTicketsLeft,
    /// The admin has already taken the proceeds.
    RaffleAdminAlreadyClaimed,
    /// The admin has not taken the proceeds yet.
    RaffleAdminNotClaimed,
    /// Some rewarded tickets have not been claimed yet.
    RaffleRewardsNotClaimed,
    /// The entrant's rewards have not been allocated.
    EntrantNotAwarded,
    /// The entrant's rewards have already been allocated.
    EntrantAlreadyAwarded,
}

/// The code of the first error; the others follow in the order of declaration.
pub const ERROR_CODE_OFFSET: u32 = 6000;

impl RaffleError {
    /// The place of the error in the order of declaration, from zero.
    pub open spec fn index(self) -> nat {
        match self {
            RaffleError::InvalidCalculation => 0,
            RaffleError::StartAfterEndTimestamp => 1,
            RaffleError::EndTimestampAlreadyPassed => 2,
            RaffleError::FeeGreaterThanPrice => 3,
            RaffleError::RewardsNumGreaterThanTickets => 4,
            RaffleError::LimitLessThanOne => 5,
            RaffleError::RaffleTicketsUnavailable => 6,
            RaffleError::EntrantTicketLimitReached => 7,
            RaffleError::RaffleNotStarted => 8,
            RaffleError::RaffleEnded => 9,
            RaffleError::RewardsNumGreaterThanTicketsBought => 10,
            RaffleError::RewardsAmountGreaterThanTotal => 11,
            RaffleError::RaffleSoldOut => 12,
            RaffleError::RaffleStillActive => 13,
            RaffleError::RaffleRewardsNotSet => 14,
            RaffleError::NotEnoughTicketsLeft => 15,
            RaffleError::RaffleAdminAlreadyClaimed => 16,
            RaffleError::RaffleAdminNotClaimed => 17,
            RaffleError::RaffleRewardsNotClaimed => 18,
            RaffleError::EntrantNotAwarded => 19,
            RaffleError::EntrantAlreadyAwarded => 20,
        }
    }

    /// The number under which the error is reported to a caller.
    pub fn code(&self) -> (code: u32)
        ensures
            code == ERROR_CODE_OFFSET + self.index(),
    {
        match self {
            RaffleError::InvalidCalculation => 6000,
            RaffleError::StartAfterEndTimestamp => 6001,
            RaffleError::EndTimestampAlreadyPassed => 6002,
            RaffleError::FeeGreaterThanPrice => 6003,
            RaffleError::RewardsNumGreaterThanTickets => 6004,
            RaffleError::LimitLessThanOne => 6005,
            RaffleError::RaffleTicketsUnavailable => 6006,
            RaffleError::EntrantTicketLimitReached => 6007,
            RaffleError::RaffleNotStarted => 6008,
            RaffleError::RaffleEnded => 6009,
            RaffleError::RewardsNumGreaterThanTicketsBought => 6010,
            RaffleError::RewardsAmountGreaterThanTotal => 6011,
            RaffleError::RaffleSoldOut => 6012,
            RaffleError::RaffleStillActive => 6013,
            RaffleError::RaffleRewardsNotSet => 6014,
            RaffleError::NotEnoughTicketsLeft => 6015,
            RaffleError::RaffleAdminAlreadyClaimed => 6016,
            RaffleError::RaffleAdminNotClaimed => 6017,
            RaffleError::RaffleRewardsNotClaimed => 6018,
            RaffleError::EntrantNotAwarded => 6019,
            RaffleError::EntrantAlreadyAwarded => 6020,
        }
    }
}

} // verus!
