//! The ledger as a whole: one raffle together with every entrant it ever had.
//!
//! The operations work on one raffle record and at most one entrant record at
//! a time. What they keep true of all the records together is stated and
//! proved here, over a model of the ledger in which each operation is one
//! step.

use vstd::prelude::*;
use crate::errors::RaffleError;
use crate::instructions::entrant::settlement_outcome;
use crate::instructions::raffle::{allocation_outcome, claim_outcome, purchase_outcome};
use crate::pubkey::Pubkey;
use crate::states::entrant::Entrant;
use crate::states::raffle::{min_count, within_cap, Raffle};

verus! {

/// One entrant of the raffle: its record as it last stood, and whether the
/// entrant was settled and the record destroyed.
pub struct Entry {
    pub record: Entrant,
    pub closed: bool,
}

/// What is counted over the entrants.
pub enum Tally {
    /// The tickets bought.
    Tickets,
    /// The rewarded tickets.
    Rewards,
    /// The rewarded tickets of entrants that were settled.
    Claimed,
}

/// The share of one entrant in a count.
pub open spec fn share(tally: Tally, entry: Entry) -> int {
    match tally {
        Tally::Tickets => entry.record.tickets as int,
        Tally::Rewards => entry.record.rewards as int,
        Tally::Claimed => if entry.closed {
            entry.record.rewards as int
        } else {
            0
        },
    }
}

/// The count over all the entrants.
pub open spec fn total(tally: Tally, entries: Seq<Entry>) -> int
    decreases entries.len(),
{
    if entries.len() == 0 {
        0
    } else {
        total(tally, entries.drop_last()) + share(tally, entries.last())
    }
}

/// A new entrant adds its share to a count.
pub proof fn lemma_total_push(tally: Tally, entries: Seq<Entry>, entry: Entry)
    ensures
        total(tally, entries.push(entry)) == total(tally, entries) + share(tally, entry),
{
    assert(entries.push(entry).drop_last() =~= entries);
}

/// A change to one entrant changes a count by the change of its share.
pub proof fn lemma_total_update(tally: Tally, entries: Seq<Entry>, i: int, entry: Entry)
    requires
        0 <= i < entries.len(),
    ensures
        total(tally, entries.update(i, entry)) == total(tally, entries) - share(tally, entries[i])
            + share(tally, entry),
    decreases entries.len(),
{
    let updated = entries.update(i, entry);
    if i == entries.len() - 1 {
        assert(updated.drop_last() =~= entries.drop_last());
    } else {
        assert(updated.drop_last() =~= entries.drop_last().update(i, entry));
        lemma_total_update(tally, entries.drop_last(), i, entry);
    }
}

/// A count whose shares are nowhere larger is not larger in all.
pub proof fn lemma_total_ordered(lower: Tally, upper: Tally, entries: Seq<Entry>)
    requires
        forall|i: int| 0 <= i < entries.len() ==> share(lower, #[trigger] entries[i]) <= share(
            upper,
            entries[i],
        ),
    ensures
        total(lower, entries) <= total(upper, entries),
    decreases entries.len(),
{
    if entries.len() > 0 {
        let rest = entries.drop_last();
        assert forall|i: int| 0 <= i < rest.len() implies share(lower, #[trigger] rest[i]) <= share(
            upper,
            rest[i],
        ) by {
            assert(rest[i] == entries[i]);
        }
        lemma_total_ordered(lower, upper, rest);
        assert(entries.last() == entries[entries.len() - 1]);
    }
}

/// One raffle and all its entrants, in the order in which they entered.
pub struct Ledger {
    pub raffle: Raffle,
    pub entries: Seq<Entry>,
}

impl Ledger {
    /// Whether entrant `i` has a record on the ledger.
    pub open spec fn has_record(&self, i: int) -> bool {
        0 <= i < self.entries.len() && !self.entries[i].closed
    }

    /// The counters of the raffle agree with the records of its entrants.
    pub open spec fn consistent(&self) -> bool {
        &&& self.raffle.well_formed()
        &&& forall|i: int|
            0 <= i < self.entries.len() ==> (#[trigger] self.entries[i]).record.well_formed()
                && within_cap(self.entries[i].record.tickets as int, self.raffle.limit)
        &&& self.raffle.tickets_sold == total(Tally::Tickets, self.entries)
        &&& self.raffle.rewards_awarded == total(Tally::Rewards, self.entries)
        &&& self.raffle.rewards_claimed == if self.raffle.rewards_amount > 0 {
            total(Tally::Claimed, self.entries)
        } else {
            0
        }
    }

    /// A raffle that was just created, with no entrant.
    pub open spec fn opening(raffle: Raffle) -> Ledger {
        Ledger { raffle, entries: Seq::empty() }
    }

    /// A user enters the raffle at `now`.
    pub open spec fn enter(self, now: i64, bump: u8, user: Pubkey, raffle_key: Pubkey) -> Result<
        Ledger,
        RaffleError,
    > {
        if self.raffle.active_check(now) is Err {
            Err(self.raffle.active_check(now)->Err_0)
        } else {
            Ok(
                Ledger {
                    entries: self.entries.push(
                        Entry {
                            record: Entrant { bump, user, raffle: raffle_key, tickets: 0, rewards: 0 },
                            closed: false,
                        },
                    ),
                    ..self
                },
            )
        }
    }

    /// Entrant `i` buys `amount` tickets at `now`.
    pub open spec fn buy(self, i: int, now: i64, amount: u64) -> Result<Ledger, RaffleError>
        recommends
            self.has_record(i),
    {
        let record = self.entries[i].record;
        match purchase_outcome(self.raffle, record, now, amount) {
            Err(e) => Err(e),
            Ok(_) => Ok(
                Ledger {
                    raffle: self.raffle.after_purchase(amount),
                    entries: self.entries.update(
                        i,
                        Entry { record: record.after_purchase(amount), closed: false },
                    ),
                },
            ),
        }
    }

    /// The admin allocates `amount` rewarded tickets to entrant `i` at `now`.
    pub open spec fn allocate(self, i: int, now: i64, amount: u64) -> Result<Ledger, RaffleError>
        recommends
            self.has_record(i),
    {
        let record = self.entries[i].record;
        match allocation_outcome(self.raffle, record, now, amount) {
            Err(e) => Err(e),
            Ok(_) => Ok(
                Ledger {
                    raffle: self.raffle.after_allocation(amount),
                    entries: self.entries.update(
                        i,
                        Entry { record: record.after_allocation(amount), closed: false },
                    ),
                },
            ),
        }
    }

    /// Entrant `i` is settled at `now` and its record destroyed.
    pub open spec fn settle(self, i: int, now: i64) -> Result<Ledger, RaffleError>
        recommends
            self.has_record(i),
    {
        let record = self.entries[i].record;
        match settlement_outcome(self.raffle, record, now) {
            Err(e) => Err(e),
            Ok(_) => Ok(
                Ledger {
                    raffle: self.raffle.after_settlement(record.rewards),
                    entries: self.entries.update(i, Entry { record, closed: true }),
                },
            ),
        }
    }

    /// The admin takes the proceeds at `now`.
    pub open spec fn claim(self, now: i64) -> Result<Ledger, RaffleError> {
        match claim_outcome(self.raffle, now) {
            Err(e) => Err(e),
            Ok(_) => Ok(Ledger { raffle: self.raffle.after_claim(), ..self }),
        }
    }

    /// A ledger with no entrant is consistent when the raffle has sold,
    /// awarded and claimed nothing.
    pub proof fn lemma_opening_consistent(raffle: Raffle)
        requires
            raffle.well_formed(),
            raffle.tickets_sold == 0,
            raffle.rewards_awarded == 0,
            raffle.rewards_claimed == 0,
        ensures
            Ledger::opening(raffle).consistent(),
    {
    }

    /// On a consistent ledger the tickets sold stay within the cap, the
    /// rewards allocated never exceed the rewarded tickets of the raffle nor
    /// the tickets sold, the rewards claimed never exceed the rewards
    /// allocated, and every entrant stays within the limit per entrant and
    /// holds no more rewards than tickets.
    pub proof fn lemma_consistent_bounds(self)
        requires
            self.consistent(),
        ensures
            within_cap(self.raffle.tickets_sold as int, self.raffle.tickets),
            self.raffle.rewards_awarded <= min_count(
                self.raffle.rewards_num,
                self.raffle.tickets_sold,
            ),
            self.raffle.rewards_claimed <= self.raffle.rewards_awarded,
            self.raffle.rewards_claimed <= self.raffle.rewards_num,
            forall|i: int|
                0 <= i < self.entries.len() ==> (#[trigger] self.entries[i]).record.rewards
                    <= self.entries[i].record.tickets && within_cap(
                    self.entries[i].record.tickets as int,
                    self.raffle.limit,
                ),
    {
        lemma_total_ordered(Tally::Rewards, Tally::Tickets, self.entries);
        lemma_total_ordered(Tally::Claimed, Tally::Rewards, self.entries);
    }

    /// Entering keeps the ledger consistent.
    pub proof fn lemma_enter_consistent(
        self,
        now: i64,
        bump: u8,
        user: Pubkey,
        raffle_key: Pubkey,
    )
        requires
            self.consistent(),
            self.enter(now, bump, user, raffle_key) is Ok,
        ensures
            self.enter(now, bump, user, raffle_key)->Ok_0.consistent(),
    {
        let next = self.enter(now, bump, user, raffle_key)->Ok_0;
        let entry = Entry {
            record: Entrant { bump, user, raffle: raffle_key, tickets: 0, rewards: 0 },
            closed: false,
        };
        lemma_total_push(Tally::Tickets, self.entries, entry);
        lemma_total_push(Tally::Rewards, self.entries, entry);
        lemma_total_push(Tally::Claimed, self.entries, entry);
        assert forall|i: int| 0 <= i < next.entries.len() implies (#[trigger] next.entries[i]).record.well_formed()
            && within_cap(next.entries[i].record.tickets as int, next.raffle.limit) by {
            if i < self.entries.len() {
                assert(next.entries[i] == self.entries[i]);
            }
        }
    }

    /// A purchase keeps the ledger consistent, and the tickets sold grow by
    /// exactly what was bought.
    pub proof fn lemma_buy_consistent(self, i: int, now: i64, amount: u64)
        requires
            self.consistent(),
            self.has_record(i),
            self.buy(i, now, amount) is Ok,
        ensures
            self.buy(i, now, amount)->Ok_0.consistent(),
            self.buy(i, now, amount)->Ok_0.raffle.tickets_sold == self.raffle.tickets_sold + amount,
    {
        let next = self.buy(i, now, amount)->Ok_0;
        let entry = Entry { record: self.entries[i].record.after_purchase(amount), closed: false };
        lemma_total_update(Tally::Tickets, self.entries, i, entry);
        lemma_total_update(Tally::Rewards, self.entries, i, entry);
        lemma_total_update(Tally::Claimed, self.entries, i, entry);
        assert forall|j: int| 0 <= j < next.entries.len() implies (#[trigger] next.entries[j]).record.well_formed()
            && within_cap(next.entries[j].record.tickets as int, next.raffle.limit) by {
            if j != i {
                assert(next.entries[j] == self.entries[j]);
            }
        }
    }

    /// An allocation keeps the ledger consistent. The rewards allocated do
    /// not shrink, and stay within both the rewarded tickets of the raffle and
    /// the tickets sold.
    pub proof fn lemma_allocate_consistent(self, i: int, now: i64, amount: u64)
        requires
            self.consistent(),
            self.has_record(i),
            self.allocate(i, now, amount) is Ok,
        ensures
            self.allocate(i, now, amount)->Ok_0.consistent(),
            self.allocate(i, now, amount)->Ok_0.raffle.rewards_awarded
                == self.raffle.rewards_awarded + amount,
            self.allocate(i, now, amount)->Ok_0.raffle.rewards_awarded <= min_count(
                self.raffle.rewards_num,
                self.raffle.tickets_sold,
            ),
    {
        let next = self.allocate(i, now, amount)->Ok_0;
        let entry = Entry { record: self.entries[i].record.after_allocation(amount), closed: false };
        lemma_total_update(Tally::Tickets, self.entries, i, entry);
        lemma_total_update(Tally::Rewards, self.entries, i, entry);
        lemma_total_update(Tally::Claimed, self.entries, i, entry);
        assert forall|j: int| 0 <= j < next.entries.len() implies (#[trigger] next.entries[j]).record.well_formed()
            && within_cap(next.entries[j].record.tickets as int, next.raffle.limit) by {
            if j != i {
                assert(next.entries[j] == self.entries[j]);
            }
        }
        assert(next.consistent());
        next.lemma_consistent_bounds();
    }

    /// A settlement keeps the ledger consistent, and leaves the entrant
    /// without a record: it cannot be settled again.
    pub proof fn lemma_settle_consistent(self, i: int, now: i64)
        requires
            self.consistent(),
            self.has_record(i),
            self.settle(i, now) is Ok,
        ensures
            self.settle(i, now)->Ok_0.consistent(),
            !self.settle(i, now)->Ok_0.has_record(i),
            forall|j: int| j != i ==> self.settle(i, now)->Ok_0.has_record(j) == self.has_record(j),
    {
        let next = self.settle(i, now)->Ok_0;
        let record = self.entries[i].record;
        let entry = Entry { record, closed: true };
        lemma_total_update(Tally::Tickets, self.entries, i, entry);
        lemma_total_update(Tally::Rewards, self.entries, i, entry);
        lemma_total_update(Tally::Claimed, self.entries, i, entry);
        assert(self.raffle.reward_amount(record.rewards) > 0 <==> self.raffle.rewards_amount > 0
            && record.rewards > 0) by (nonlinear_arith)
            requires
                self.raffle.reward_amount(record.rewards) == self.raffle.rewards_amount
                    * record.rewards,
        ;
        assert forall|j: int| 0 <= j < next.entries.len() implies (#[trigger] next.entries[j]).record.well_formed()
            && within_cap(next.entries[j].record.tickets as int, next.raffle.limit) by {
            if j != i {
                assert(next.entries[j] == self.entries[j]);
            }
        }
    }

    /// Taking the proceeds keeps the ledger consistent.
    pub proof fn lemma_claim_consistent(self, now: i64)
        requires
            self.consistent(),
            self.claim(now) is Ok,
        ensures
            self.claim(now)->Ok_0.consistent(),
            self.claim(now)->Ok_0.raffle.admin_claimed,
    {
    }
}

/// One operation on the ledger. An entrant is named by its place among the
/// entrants.
pub enum Operation {
    /// A user enters the raffle.
    Enter { bump: u8, user: Pubkey, raffle_key: Pubkey },
    /// An entrant buys tickets.
    Buy { entrant: int, amount: u64 },
    /// The admin allocates rewarded tickets to an entrant.
    Allocate { entrant: int, amount: u64 },
    /// An entrant is settled and its record destroyed.
    Settle { entrant: int },
    /// The admin takes the proceeds.
    Claim,
}

impl Ledger {
    /// Whether the records that the operation names are on the ledger.
    pub open spec fn finds(&self, op: Operation) -> bool {
        match op {
            Operation::Enter { .. } => true,
            Operation::Buy { entrant, .. } => self.has_record(entrant),
            Operation::Allocate { entrant, .. } => self.has_record(entrant),
            Operation::Settle { entrant } => self.has_record(entrant),
            Operation::Claim => true,
        }
    }

    /// The ledger after the operation was carried out at `now`, or the reason
    /// for which it was refused.
    pub open spec fn step(self, op: Operation, now: i64) -> Result<Ledger, RaffleError>
        recommends
            self.finds(op),
    {
        match op {
            Operation::Enter { bump, user, raffle_key } => self.enter(now, bump, user, raffle_key),
            Operation::Buy { entrant, amount } => self.buy(entrant, now, amount),
            Operation::Allocate { entrant, amount } => self.allocate(entrant, now, amount),
            Operation::Settle { entrant } => self.settle(entrant, now),
            Operation::Claim => self.claim(now),
        }
    }

    /// Every operation keeps the ledger consistent, and touches nothing of the
    /// configuration of the raffle.
    pub proof fn lemma_step_consistent(self, op: Operation, now: i64)
        requires
            self.consistent(),
            self.finds(op),
            self.step(op, now) is Ok,
        ensures
            self.step(op, now)->Ok_0.consistent(),
            self.step(op, now)->Ok_0.raffle.same_configuration(self.raffle),
    {
        match op {
            Operation::Enter { bump, user, raffle_key } => {
                self.lemma_enter_consistent(now, bump, user, raffle_key);
            },
            Operation::Buy { entrant, amount } => {
                self.lemma_buy_consistent(entrant, now, amount);
            },
            Operation::Allocate { entrant, amount } => {
                self.lemma_allocate_consistent(entrant, now, amount);
            },
            Operation::Settle { entrant } => {
                self.lemma_settle_consistent(entrant, now);
            },
            Operation::Claim => {
                self.lemma_claim_consistent(now);
            },
        }
    }

    /// No operation takes the raffle back to an earlier stage: the stage after
    /// an operation at `later` is the stage at any time up to `later` before
    /// it, or one that follows it.
    pub proof fn lemma_step_never_reverses(self, op: Operation, now: i64, later: i64)
        requires
            self.consistent(),
            self.finds(op),
            now <= later,
            self.step(op, later) is Ok,
        ensures
            self.raffle.stage_at(now).rank() <= self.step(op, later)->Ok_0.raffle.stage_at(
                later,
            ).rank(),
    {
        self.lemma_step_consistent(op, later);
        self.lemma_consistent_bounds();
        self.raffle.lemma_stage_advances_with_time(now, later);
        match op {
            Operation::Allocate { entrant, amount } => {
                self.lemma_allocate_consistent(entrant, later, amount);
            },
            _ => {},
        }
    }
}

} // verus!
