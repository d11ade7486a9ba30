use raffle_ledger::instructions::config::init_admin;
use raffle_ledger::instructions::entrant;
use raffle_ledger::instructions::raffle;
use raffle_ledger::lifecycle::Stage;
use raffle_ledger::pubkey::Pubkey;

fn key(tag: u8) -> Pubkey {
    Pubkey::new_from_array([tag; 32])
}

#[test]
fn raffle_passes_through_its_stages_in_order() {
    let settings = init_admin(255, key(1));
    let mut r = raffle::initialize(
        &settings, &key(1), 50, 254, key(2), key(3), key(4), 100, 1, 50, 100, 200, Some(10), Some(3),
        None,
    )
    .unwrap();
    assert_eq!(r.stage(50), Stage::Pending);
    assert_eq!(r.stage(99), Stage::Pending);
    assert_eq!(r.stage(100), Stage::Active);

    let mut a = entrant::initialize(&r, 100, 7, key(9), key(8)).unwrap();
    let mut b = entrant::initialize(&r, 100, 7, key(10), key(8)).unwrap();
    raffle::buy_tickets(&mut r, &mut a, 110, 2).unwrap();
    assert_eq!(r.stage(110), Stage::Active);
    assert_eq!(r.stage(199), Stage::Active);
    assert_eq!(r.stage(200), Stage::Ended);
    raffle::buy_tickets(&mut r, &mut b, 120, 1).unwrap();
    assert_eq!(r.stage(120), Stage::Ended);

    raffle::set_rewards(&settings, &key(1), &mut r, &mut a, 130, 0).unwrap();
    assert_eq!(r.stage(130), Stage::Ended);
    raffle::set_rewards(&settings, &key(1), &mut r, &mut b, 130, 1).unwrap();
    assert_eq!(r.stage(130), Stage::Awarded);
    assert!(r.rewards_awarded <= r.rewards_num.min(r.tickets_sold));

    entrant::close(&mut r, &a, 140).unwrap();
    assert_eq!(r.stage(140), Stage::Awarded);
    raffle::claim_proceeds(&settings, &key(1), &mut r, 150).unwrap();
    assert_eq!(r.stage(150), Stage::AdminClaimed);
    entrant::close(&mut r, &b, 160).unwrap();
    assert_eq!(r.stage(160), Stage::AdminClaimed);
    assert_eq!(raffle::close(&settings, &key(1), &r, 170), Ok(()));
}

#[test]
fn raffle_without_rewards_is_awarded_at_its_end() {
    let settings = init_admin(255, key(1));
    let r = raffle::initialize(
        &settings, &key(1), 50, 254, key(2), key(3), key(4), 100, 0, 50, 100, 200, None, None, None,
    )
    .unwrap();
    assert_eq!(r.stage(199), Stage::Active);
    assert_eq!(r.stage(200), Stage::Awarded);
    assert_eq!(r.stage(i64::MAX), Stage::Awarded);
    assert_eq!(r.stage(i64::MIN), Stage::Pending);
}
