use raffle_ledger::errors::{RaffleError, ERROR_CODE_OFFSET};
use raffle_ledger::pubkey::Pubkey;
use raffle_ledger::states::entrant::Entrant;
use raffle_ledger::states::raffle::Raffle;

fn raffle_with(price: u64, fee: u64, rewards_amount: u64) -> Raffle {
    Raffle {
        bump: 0,
        seed: Pubkey::new_from_array([2; 32]),
        price,
        fee,
        currency: Pubkey::new_from_array([3; 32]),
        rewards_num: 4,
        rewards_amount,
        reward: Pubkey::new_from_array([4; 32]),
        start_timestamp: 100,
        end_timestamp: 200,
        tickets: Some(10),
        limit: None,
        tickets_sold: 0,
        rewards_awarded: 0,
        rewards_claimed: 0,
        admin_claimed: false,
    }
}

fn entrant_with(tickets: u64, rewards: u64) -> Entrant {
    Entrant {
        bump: 0,
        user: Pubkey::new_from_array([9; 32]),
        raffle: Pubkey::new_from_array([8; 32]),
        tickets,
        rewards,
    }
}

#[test]
fn refund_and_fee_make_up_the_price() {
    let r = raffle_with(100, 10, 50);
    for tickets in [0u64, 1, 2, 7, 1000] {
        let refund = r.get_refunable_proceeds(tickets).unwrap();
        assert_eq!(refund + r.fee * tickets, r.price * tickets);
    }
    assert_eq!(r.get_refunable_proceeds(7), Ok(630));
    assert_eq!(r.get_refunable_proceeds(0), Ok(0));
}

#[test]
fn refund_is_refused_where_it_cannot_be_computed() {
    let r = raffle_with(u64::MAX, 1, 50);
    assert_eq!(r.get_refunable_proceeds(1), Ok(u64::MAX - 1));
    assert_eq!(r.get_refunable_proceeds(2), Err(RaffleError::InvalidCalculation));
    let fee_only = raffle_with(1, u64::MAX, 50);
    assert_eq!(fee_only.get_refunable_proceeds(2), Err(RaffleError::InvalidCalculation));
    assert_eq!(fee_only.get_refunable_proceeds(1), Err(RaffleError::InvalidCalculation));
    assert_eq!(fee_only.get_refunable_proceeds(0), Ok(0));
}

#[test]
fn reward_is_amount_per_ticket() {
    let r = raffle_with(100, 10, 50);
    assert_eq!(r.get_reward_amount(0), Ok(0));
    assert_eq!(r.get_reward_amount(3), Ok(150));
    let big = raffle_with(100, 10, u64::MAX);
    assert_eq!(big.get_reward_amount(1), Ok(u64::MAX));
    assert_eq!(big.get_reward_amount(2), Err(RaffleError::InvalidCalculation));
}

#[test]
fn authority_keeps_prices_of_rewarded_and_fees_of_others() {
    let mut r = raffle_with(100, 10, 50);
    r.tickets_sold = 7;
    r.rewards_awarded = 2;
    assert_eq!(r.get_authority_proceeds(), Ok(2 * 100 + 5 * 10));
    r.rewards_awarded = 8;
    assert_eq!(r.get_authority_proceeds(), Err(RaffleError::InvalidCalculation));
    let mut big = raffle_with(u64::MAX, 1, 50);
    big.tickets_sold = 2;
    big.rewards_awarded = 1;
    assert_eq!(big.get_authority_proceeds(), Err(RaffleError::InvalidCalculation));
    big.rewards_awarded = 2;
    assert_eq!(big.get_authority_proceeds(), Err(RaffleError::InvalidCalculation));
    big.tickets_sold = 1;
    big.rewards_awarded = 1;
    assert_eq!(big.get_authority_proceeds(), Ok(u64::MAX));
    let mut fees = raffle_with(u64::MAX, u64::MAX - 1, 50);
    fees.tickets_sold = 2;
    assert_eq!(fees.get_authority_proceeds(), Err(RaffleError::InvalidCalculation));
}

#[test]
fn claimed_rewards_are_counted() {
    let mut r = raffle_with(100, 10, 50);
    assert_eq!(r.claim_rewards(3), Ok(()));
    assert_eq!(r.rewards_claimed, 3);
    assert_eq!(r.claim_rewards(0), Ok(()));
    assert_eq!(r.rewards_claimed, 3);
    assert_eq!(r.claim_rewards(u64::MAX - 2), Err(RaffleError::InvalidCalculation));
    assert_eq!(r.rewards_claimed, 3);
    assert_eq!(r.claim_rewards(u64::MAX - 3), Ok(()));
    assert_eq!(r.rewards_claimed, u64::MAX);
}

#[test]
fn refundable_tickets_are_those_without_reward() {
    assert_eq!(entrant_with(2, 1).get_refundable_tickets(), Ok(1));
    assert_eq!(entrant_with(5, 5).get_refundable_tickets(), Ok(0));
    assert_eq!(entrant_with(5, 0).get_refundable_tickets(), Ok(5));
    assert_eq!(entrant_with(1, 2).get_refundable_tickets(), Err(RaffleError::InvalidCalculation));
    assert_eq!(entrant_with(5, 3).get_rewards(), Ok(3));
}

#[test]
fn error_codes_follow_the_order_of_declaration() {
    let all = [
        RaffleError::InvalidCalculation,
        RaffleError::StartAfterEndTimestamp,
        RaffleError::EndTimestampAlreadyPassed,
        RaffleError::FeeGreaterThanPrice,
        RaffleError::RewardsNumGreaterThanTickets,
        RaffleError::LimitLessThanOne,
        RaffleError::RaffleTicketsUnavailable,
        RaffleError::EntrantTicketLimitReached,
        RaffleError::RaffleNotStarted,
        RaffleError::RaffleEnded,
        RaffleError::RewardsNumGreaterThanTicketsBought,
        RaffleError::RewardsAmountGreaterThanTotal,
        RaffleError::RaffleSoldOut,
        RaffleError::RaffleStillActive,
        RaffleError::RaffleRewardsNotSet,
        RaffleError::NotEnoughTicketsLeft,
        RaffleError::RaffleAdminAlreadyClaimed,
        RaffleError::RaffleAdminNotClaimed,
        RaffleError::RaffleRewardsNotClaimed,
        RaffleError::EntrantNotAwarded,
        RaffleError::EntrantAlreadyAwarded,
    ];
    assert_eq!(ERROR_CODE_OFFSET, 6000);
    let mut expected: u32 = 6000;
    for e in all {
        assert_eq!(e.code(), expected);
        expected += 1;
    }
    assert_eq!(RaffleError::EntrantAlreadyAwarded.code(), 6020);
}

#[test]
fn addresses_compare_by_their_bytes() {
    let a = Pubkey::new_from_array([7; 32]);
    let mut bytes = [7u8; 32];
    assert!(a == Pubkey::new_from_array(bytes));
    assert_eq!(a.to_bytes(), bytes);
    bytes[31] = 8;
    assert!(a != Pubkey::new_from_array(bytes));
    bytes[31] = 7;
    bytes[0] = 0;
    assert!(a != Pubkey::new_from_array(bytes));
}
