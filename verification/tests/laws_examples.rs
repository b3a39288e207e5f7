use substream_contracts::{Party, StoredStream, Stream, SubStreamContract, Transfer};

const TOKEN: u32 = 9;

fn stream(rate: i128, balance: i128, last: u64) -> Stream<u32> {
    Stream { token: TOKEN, rate_per_second: rate, balance, last_collected: last }
}

fn saved(storage: StoredStream<u32>) -> Stream<u32> {
    match storage {
        StoredStream::Save(s) => s,
        other => panic!("expected a saved stream, got {:?}", other),
    }
}

fn into_contract(ts: &[Transfer]) -> i128 {
    ts.iter()
        .map(|t| {
            (if t.to == Party::Contract { t.amount } else { 0 }) - (if t.from == Party::Contract { t.amount } else { 0 })
        })
        .sum()
}

#[test]
fn collecting_in_steps_pays_the_same_as_once() {
    let s = stream(3, 100, 10);
    let once = SubStreamContract::collect(Some(s.clone()), 40).unwrap();
    let first = SubStreamContract::collect(Some(s), 20).unwrap();
    let paid_first = first.transfers[0].amount;
    let second = SubStreamContract::collect(Some(saved(first.storage)), 40).unwrap();
    assert_eq!(paid_first + second.transfers[0].amount, once.transfers[0].amount);
    assert_eq!(once.transfers[0].amount, 90);
}

#[test]
fn collecting_twice_at_one_time_pays_once() {
    let s = stream(3, 100, 10);
    let first = SubStreamContract::collect(Some(s), 20).unwrap();
    assert_eq!(first.transfers[0].amount, 30);
    let again = SubStreamContract::collect(Some(saved(first.storage)), 20).unwrap();
    assert!(again.transfers.is_empty());
    assert_eq!(again.storage, StoredStream::Unchanged);
}

#[test]
fn holdings_match_recorded_balances() {
    let s = stream(7, 50, 0);
    let c = SubStreamContract::collect(Some(s.clone()), 3).unwrap();
    assert_eq!(saved(c.storage).balance, 50 + into_contract(&c.transfers));
    let t = SubStreamContract::top_up(Some(s.clone()), 11).unwrap();
    assert_eq!(saved(t.storage).balance, 50 + into_contract(&t.transfers));
    let m = SubStreamContract::migrate_tier(Some(s.clone()), 1u32, 2u32, 3, 4, 2).unwrap();
    assert_eq!(saved(m.storage).balance, 50 + into_contract(&m.transfers));
    let x = SubStreamContract::cancel(Some(s), 2).unwrap();
    assert_eq!(x.storage, StoredStream::Remove);
    assert_eq!(0, 50 + into_contract(&x.transfers));
}

#[test]
fn cancel_splits_balance_between_creator_and_subscriber() {
    let plan = SubStreamContract::cancel(Some(stream(2, 100, 0)), 15).unwrap();
    assert_eq!(plan.transfers, vec![
        Transfer { from: Party::Contract, to: Party::Creator, amount: 30 },
        Transfer { from: Party::Contract, to: Party::Subscriber, amount: 70 },
    ]);
    // Once the balance has run out, nothing is refunded.
    let plan = SubStreamContract::cancel(Some(stream(2, 10, 0)), 15).unwrap();
    assert_eq!(plan.transfers, vec![Transfer { from: Party::Contract, to: Party::Creator, amount: 10 }]);
}

#[test]
fn transfers_are_positive() {
    let plans = vec![
        SubStreamContract::subscribe(false, TOKEN, 5, 1, 0).unwrap(),
        SubStreamContract::collect(Some(stream(1, 5, 0)), 3).unwrap(),
        SubStreamContract::cancel(Some(stream(1, 5, 0)), 3).unwrap(),
        SubStreamContract::top_up(Some(stream(1, 5, 0)), 2).unwrap(),
        SubStreamContract::migrate_tier(Some(stream(4, 50, 0)), 1u32, 2u32, 1, 3, 3).unwrap(),
    ];
    for p in plans {
        for t in p.transfers {
            assert!(t.amount > 0);
            assert_ne!(t.from, t.to);
        }
    }
}

#[test]
fn tier_change_settles_at_old_rate_first() {
    let s = stream(5, 100, 0);
    let collected = SubStreamContract::collect(Some(s.clone()), 4).unwrap();
    let migrated = SubStreamContract::migrate_tier(Some(s), 1u32, 2u32, 9, 0, 4).unwrap();
    assert_eq!(migrated.transfers[..collected.transfers.len()], collected.transfers[..]);
    assert_eq!(migrated.transfers[0].amount, 20);
    assert_eq!(saved(migrated.storage), stream(9, 80, 4));
}

#[test]
fn same_tier_without_deposit_is_a_collection() {
    let s = stream(2, 100, 0);
    let collected = SubStreamContract::collect(Some(s.clone()), 10).unwrap();
    let migrated = SubStreamContract::migrate_tier(Some(s), 1u32, 2u32, 2, 0, 10).unwrap();
    assert_eq!(migrated.transfers, collected.transfers);
    assert_eq!(migrated.storage, collected.storage);
    assert_eq!(migrated.event, None);
}

#[test]
fn subscribe_creates_well_formed_stream() {
    let plan = SubStreamContract::subscribe(false, TOKEN, 40, 3, 77).unwrap();
    assert_eq!(plan.transfers, vec![Transfer { from: Party::Subscriber, to: Party::Contract, amount: 40 }]);
    assert_eq!(saved(plan.storage), stream(3, 40, 77));
}

#[test]
fn top_up_only_raises_the_balance() {
    let plan = SubStreamContract::top_up(Some(stream(3, 40, 77)), 5).unwrap();
    assert_eq!(saved(plan.storage), stream(3, 45, 77));
    assert_eq!(plan.event, None);
}
