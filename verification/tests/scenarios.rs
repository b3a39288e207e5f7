use substream_contracts::{Party, Plan, StoredStream, Stream, StreamError, SubStreamContract, TierChanged};

const TOKEN: u32 = 7;
const SUBSCRIBER: u32 = 1;
const CREATOR: u32 = 2;

/// A ledger with one token, three holders and one stream slot, on which the
/// plans of the contract are carried out.
struct Chain {
    subscriber: i128,
    creator: i128,
    contract: i128,
    now: u64,
    stored: Option<Stream<u32>>,
    events: Vec<TierChanged<u32>>,
}

impl Chain {
    fn new(minted: i128) -> Chain {
        Chain { subscriber: minted, creator: 0, contract: 0, now: 0, stored: None, events: Vec::new() }
    }

    fn holder(&mut self, p: Party) -> &mut i128 {
        match p {
            Party::Subscriber => &mut self.subscriber,
            Party::Creator => &mut self.creator,
            Party::Contract => &mut self.contract,
        }
    }

    fn apply(&mut self, plan: Plan<u32>) {
        for t in plan.transfers {
            assert!(*self.holder(t.from) >= t.amount, "insufficient balance");
            *self.holder(t.from) -= t.amount;
            *self.holder(t.to) += t.amount;
        }
        match plan.storage {
            StoredStream::Unchanged => {}
            StoredStream::Save(s) => self.stored = Some(s),
            StoredStream::Remove => self.stored = None,
        }
        if let Some(e) = plan.event {
            self.events.push(e);
        }
    }

    fn subscribe(&mut self, amount: i128, rate: i128) -> Result<(), StreamError> {
        let plan = SubStreamContract::subscribe(self.stored.is_some(), TOKEN, amount, rate, self.now)?;
        self.apply(plan);
        Ok(())
    }

    fn collect(&mut self) -> Result<(), StreamError> {
        let plan = SubStreamContract::collect(self.stored.clone(), self.now)?;
        self.apply(plan);
        Ok(())
    }

    fn cancel(&mut self) -> Result<(), StreamError> {
        let plan = SubStreamContract::cancel(self.stored.clone(), self.now)?;
        self.apply(plan);
        Ok(())
    }

    fn top_up(&mut self, amount: i128) -> Result<(), StreamError> {
        let plan = SubStreamContract::top_up(self.stored.clone(), amount)?;
        self.apply(plan);
        Ok(())
    }

    fn migrate_tier(&mut self, new_rate: i128, deposit: i128) -> Result<(), StreamError> {
        let plan = SubStreamContract::migrate_tier(self.stored.clone(), SUBSCRIBER, CREATOR, new_rate, deposit, self.now)?;
        self.apply(plan);
        Ok(())
    }

    /// The contract holds exactly what the stream records.
    fn holdings_match(&self) -> bool {
        self.contract == self.stored.as_ref().map(|s| s.balance).unwrap_or(0)
    }
}

#[test]
fn test_subscribe_and_collect() {
    let mut chain = Chain::new(1000);
    chain.now = 100;
    chain.subscribe(100, 2).unwrap();
    assert_eq!(chain.subscriber, 900);
    assert_eq!(chain.contract, 100);

    chain.now = 110;
    chain.collect().unwrap();
    assert_eq!(chain.contract, 80);
    assert_eq!(chain.creator, 20);

    chain.now = 160;
    chain.collect().unwrap();
    assert_eq!(chain.contract, 0);
    assert_eq!(chain.creator, 100);
    assert!(chain.holdings_match());
}

#[test]
fn test_cancel() {
    let mut chain = Chain::new(1000);
    chain.now = 100;
    chain.subscribe(100, 1).unwrap();
    chain.now = 120;
    chain.cancel().unwrap();
    assert_eq!(chain.creator, 20);
    assert_eq!(chain.subscriber, 980);
    assert_eq!(chain.contract, 0);
    assert!(chain.stored.is_none());
}

#[test]
fn test_subscribe_invalid_amounts() {
    let mut chain = Chain::new(0);
    let err = chain.subscribe(0, 2).unwrap_err();
    assert_eq!(err, StreamError::InvalidAmountOrRate);
    assert_eq!(err.message(), "amount and rate must be positive");
}

#[test]
fn test_subscribe_already_exists() {
    let mut chain = Chain::new(1000);
    chain.subscribe(100, 2).unwrap();
    let err = chain.subscribe(100, 2).unwrap_err();
    assert_eq!(err, StreamError::StreamAlreadyExists);
    assert_eq!(err.message(), "stream already exists");
    assert_eq!(chain.contract, 100);
}

#[test]
fn test_top_up() {
    let mut chain = Chain::new(1000);
    chain.subscribe(100, 1).unwrap();
    assert_eq!(chain.contract, 100);

    chain.top_up(50).unwrap();
    assert_eq!(chain.contract, 150);

    chain.now = 120;
    chain.collect().unwrap();
    assert_eq!(chain.creator, 120);
    assert_eq!(chain.contract, 30);
}

#[test]
fn test_migrate_tier_upgrade_collects_at_new_rate() {
    let mut chain = Chain::new(1000);
    chain.now = 100;
    chain.subscribe(100, 1).unwrap();

    chain.now = 110;
    chain.migrate_tier(2, 0).unwrap();
    assert_eq!(chain.creator, 10);
    assert_eq!(chain.contract, 90);

    chain.now = 120;
    chain.collect().unwrap();
    assert_eq!(chain.creator, 30);
    assert_eq!(chain.contract, 70);
}

#[test]
fn test_migrate_tier_downgrade_prorates_refund() {
    let mut chain = Chain::new(1000);
    chain.now = 100;
    chain.subscribe(100, 10).unwrap();

    chain.now = 105;
    chain.migrate_tier(5, 0).unwrap();
    assert_eq!(chain.creator, 50);
    assert_eq!(chain.contract, 25);
    assert_eq!(chain.subscriber, 925);
}

#[test]
fn test_migrate_tier_upgrade_with_additional_deposit() {
    let mut chain = Chain::new(1000);
    chain.now = 100;
    chain.subscribe(100, 1).unwrap();

    chain.migrate_tier(2, 50).unwrap();
    assert_eq!(chain.contract, 150);
    assert_eq!(chain.subscriber, 850);
}

#[test]
fn test_migrate_tier_emits_tier_changed_event() {
    let mut chain = Chain::new(1000);
    chain.now = 100;
    chain.subscribe(100, 1).unwrap();

    chain.migrate_tier(3, 0).unwrap();
    let expected = TierChanged { subscriber: SUBSCRIBER, creator: CREATOR, old_rate: 1, new_rate: 3 };
    assert_eq!(chain.events, vec![expected]);
}

#[test]
fn test_migrate_tier_invalid_rate() {
    let mut chain = Chain::new(1000);
    chain.now = 100;
    chain.subscribe(100, 1).unwrap();
    let err = chain.migrate_tier(0, 0).unwrap_err();
    assert_eq!(err, StreamError::InvalidNewRate);
    assert_eq!(err.message(), "new rate must be positive");
}

// ---------------------------------------------------------------------
// Further cases.
// ---------------------------------------------------------------------

#[test]
fn collect_before_any_time_passes_changes_nothing() {
    let mut chain = Chain::new(1000);
    chain.now = 100;
    chain.subscribe(100, 2).unwrap();
    let plan = SubStreamContract::collect(chain.stored.clone(), 100).unwrap();
    assert!(plan.transfers.is_empty());
    assert_eq!(plan.storage, StoredStream::Unchanged);
    // A ledger time before the last payout changes nothing either.
    let plan = SubStreamContract::collect(chain.stored.clone(), 50).unwrap();
    assert!(plan.transfers.is_empty());
    assert_eq!(plan.storage, StoredStream::Unchanged);
}

#[test]
fn collect_on_empty_stream_keeps_last_collected() {
    let mut chain = Chain::new(1000);
    chain.now = 100;
    chain.subscribe(10, 5).unwrap();
    chain.now = 110;
    chain.collect().unwrap();
    assert_eq!(chain.creator, 10);
    assert_eq!(chain.stored.as_ref().unwrap().last_collected, 110);
    chain.now = 200;
    let plan = SubStreamContract::collect(chain.stored.clone(), chain.now).unwrap();
    assert!(plan.transfers.is_empty());
    assert_eq!(plan.storage, StoredStream::Unchanged);
}

#[test]
fn missing_stream_is_refused_everywhere() {
    let none: Option<Stream<u32>> = None;
    assert_eq!(SubStreamContract::collect(none.clone(), 5).unwrap_err(), StreamError::StreamNotFound);
    assert_eq!(SubStreamContract::cancel(none.clone(), 5).unwrap_err(), StreamError::StreamNotFound);
    assert_eq!(SubStreamContract::top_up(none.clone(), 5).unwrap_err(), StreamError::StreamNotFound);
    assert_eq!(
        SubStreamContract::migrate_tier(none, SUBSCRIBER, CREATOR, 2, 0, 5).unwrap_err(),
        StreamError::StreamNotFound
    );
    assert_eq!(StreamError::StreamNotFound.message(), "stream not found");
}

#[test]
fn invalid_arguments_are_refused_first() {
    // Argument checks come before the lookup of the stream.
    let none: Option<Stream<u32>> = None;
    assert_eq!(SubStreamContract::top_up(none.clone(), 0).unwrap_err(), StreamError::InvalidTopUpAmount);
    assert_eq!(StreamError::InvalidTopUpAmount.message(), "amount must be positive");
    assert_eq!(
        SubStreamContract::migrate_tier(none.clone(), SUBSCRIBER, CREATOR, -1, 0, 5).unwrap_err(),
        StreamError::InvalidNewRate
    );
    assert_eq!(
        SubStreamContract::migrate_tier(none, SUBSCRIBER, CREATOR, 1, -1, 5).unwrap_err(),
        StreamError::NegativeDeposit
    );
    assert_eq!(StreamError::NegativeDeposit.message(), "additional deposit must be non-negative");
    assert_eq!(
        SubStreamContract::subscribe(true, TOKEN, 5, 0, 0).unwrap_err(),
        StreamError::InvalidAmountOrRate
    );
    assert_eq!(
        SubStreamContract::subscribe(false, TOKEN, -5, 3, 0).unwrap_err(),
        StreamError::InvalidAmountOrRate
    );
}

#[test]
fn downgrade_rounds_kept_balance_down() {
    let s = Stream { token: TOKEN, rate_per_second: 3, balance: 10, last_collected: 0 };
    let plan = SubStreamContract::migrate_tier(Some(s), SUBSCRIBER, CREATOR, 2, 0, 0).unwrap();
    // 10 * 2 / 3 = 6 kept, 4 refunded.
    assert_eq!(plan.transfers.len(), 1);
    assert_eq!(plan.transfers[0].from, Party::Contract);
    assert_eq!(plan.transfers[0].to, Party::Subscriber);
    assert_eq!(plan.transfers[0].amount, 4);
    assert_eq!(plan.storage, StoredStream::Save(Stream { token: TOKEN, rate_per_second: 2, balance: 6, last_collected: 0 }));
    assert_eq!(plan.event, Some(TierChanged { subscriber: SUBSCRIBER, creator: CREATOR, old_rate: 3, new_rate: 2 }));
}

#[test]
fn downgrade_of_exhausted_stream_refunds_nothing() {
    let s = Stream { token: TOKEN, rate_per_second: 10, balance: 30, last_collected: 0 };
    let plan = SubStreamContract::migrate_tier(Some(s), SUBSCRIBER, CREATOR, 1, 0, 10).unwrap();
    assert_eq!(plan.transfers.len(), 1);
    assert_eq!(plan.transfers[0].amount, 30);
    assert_eq!(plan.transfers[0].to, Party::Creator);
    assert_eq!(plan.storage, StoredStream::Save(Stream { token: TOKEN, rate_per_second: 1, balance: 0, last_collected: 10 }));
}

#[test]
fn same_rate_publishes_nothing() {
    let s = Stream { token: TOKEN, rate_per_second: 4, balance: 100, last_collected: 0 };
    let plan = SubStreamContract::migrate_tier(Some(s), SUBSCRIBER, CREATOR, 4, 0, 5).unwrap();
    assert_eq!(plan.event, None);
    assert_eq!(plan.transfers.len(), 1);
    assert_eq!(plan.transfers[0].amount, 20);
    assert_eq!(plan.storage, StoredStream::Save(Stream { token: TOKEN, rate_per_second: 4, balance: 80, last_collected: 5 }));
}

#[test]
fn downgrade_overflow_is_refused() {
    let s = Stream { token: TOKEN, rate_per_second: 3, balance: i128::MAX / 2 + 1, last_collected: 0 };
    let err = SubStreamContract::migrate_tier(Some(s), SUBSCRIBER, CREATOR, 2, 0, 0).unwrap_err();
    assert_eq!(err, StreamError::Overflow);
    assert_eq!(err.message(), "overflow");
}

#[test]
fn deposit_overflow_is_refused() {
    let s = Stream { token: TOKEN, rate_per_second: 1, balance: i128::MAX - 1, last_collected: 0 };
    let err = SubStreamContract::migrate_tier(Some(s), SUBSCRIBER, CREATOR, 2, 5, 0).unwrap_err();
    assert_eq!(err, StreamError::Overflow);
}

#[test]
fn accrual_and_top_up_limits() {
    let s = Stream { token: TOKEN, rate_per_second: i128::MAX, balance: 1, last_collected: 0 };
    assert!(s.accrual_fits(1));
    assert!(!s.accrual_fits(2));
    assert!(s.accrual_fits(0));
    let t = Stream { token: TOKEN, rate_per_second: 1, balance: i128::MAX - 3, last_collected: 0 };
    assert!(t.can_add_to_balance(3));
    assert!(!t.can_add_to_balance(4));
}
