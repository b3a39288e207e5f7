use vstd::prelude::*;
use crate::stream::Stream;
use crate::plan::{
    Party, Transfer, TierChanged, StoredStream, PlanView, StreamError, net_flow, recorded_after, transfers_positive,
    lemma_net_flow_append, lemma_net_flow_single,
};
use crate::contract::{
    collect_transfers, refund_transfers, subscribe_result, collect_result, cancel_result,
    top_up_result, migrate_tier_result, migrate_transfers, is_downgrade,
    balance_after_refund, tier_refund,
};

verus! {

// ---------------------------------------------------------------------
// Arithmetic and bookkeeping facts the laws rest on.
// ---------------------------------------------------------------------

/// A collection pays what is due, between nothing and the balance.
proof fn lemma_payout_bounds<A>(s: Stream<A>, now: u64)
    requires
        s.balance >= 0,
    ensures
        0 <= s.payout(now) <= s.balance,
        s.settled(now).balance == s.balance - s.payout(now),
        s.settled(now).token == s.token,
        s.settled(now).rate_per_second == s.rate_per_second,
{
}

/// What the settling transfer adds to each party's holdings.
proof fn lemma_collect_flows<A>(s: Stream<A>, now: u64, p: Party)
    ensures
        net_flow(collect_transfers(s, now), p) == if p == Party::Creator {
            s.payout(now)
        } else if p == Party::Contract {
            -s.payout(now)
        } else {
            0
        },
        transfers_positive(collect_transfers(s, now)),
{
    if s.pays_out(now) {
        let t = Transfer { from: Party::Contract, to: Party::Creator, amount: s.due(now) as i128 };
        lemma_net_flow_single(t, p);
        assert(s.due(now) <= s.balance);
    } else {
        assert(net_flow(Seq::<Transfer>::empty(), p) == 0);
    }
}

/// What a refund of `b` adds to each party's holdings.
proof fn lemma_refund_flows(b: int, p: Party)
    requires
        b <= i128::MAX,
    ensures
        net_flow(refund_transfers(b), p) == if b <= 0 {
            0
        } else if p == Party::Subscriber {
            b
        } else if p == Party::Contract {
            -b
        } else {
            0
        },
        transfers_positive(refund_transfers(b)),
{
    if b > 0 {
        lemma_net_flow_single(Transfer { from: Party::Contract, to: Party::Subscriber, amount: b as i128 }, p);
    } else {
        assert(net_flow(Seq::<Transfer>::empty(), p) == 0);
    }
}

/// What a deposit of `d` adds to each party's holdings.
proof fn lemma_deposit_flows(d: i128, p: Party)
    ensures
        net_flow(
            if d > 0 { seq![Transfer { from: Party::Subscriber, to: Party::Contract, amount: d }] } else { seq![] },
            p,
        ) == if d <= 0 {
            0
        } else if p == Party::Contract {
            d as int
        } else if p == Party::Subscriber {
            -d
        } else {
            0
        },
{
    if d > 0 {
        lemma_net_flow_single(Transfer { from: Party::Subscriber, to: Party::Contract, amount: d }, p);
    } else {
        assert(net_flow(Seq::<Transfer>::empty(), p) == 0);
    }
}

/// On a downgrade the kept balance is the prorated balance, between
/// nothing and the balance left after settling, and it rounds down.
proof fn lemma_downgrade_bounds<A>(s: Stream<A>, new_rate: i128, now: u64)
    requires
        new_rate > 0,
        is_downgrade(s, new_rate, now),
    ensures
        ({
            let b = s.settled(now).balance as int;
            let kept = balance_after_refund(s, new_rate, now);
            &&& 0 <= kept < b
            &&& kept * s.rate_per_second <= b * new_rate
            &&& b * new_rate < (kept + 1) * s.rate_per_second
        }),
{
    let b = s.settled(now).balance as int;
    let old = s.rate_per_second as int;
    let n = new_rate as int;
    let kept = b * n / old;
    assert(balance_after_refund(s, new_rate, now) == kept);
    assert(0 <= b * n < b * old) by (nonlinear_arith)
        requires
            b > 0,
            0 < n < old,
    ;
    assert(0 <= kept < b) by (nonlinear_arith)
        requires
            0 <= b * n < b * old,
            old > 0,
            kept == b * n / old,
    ;
    assert(kept * old <= b * n < (kept + 1) * old) by (nonlinear_arith)
        requires
            0 <= b * n,
            old > 0,
            kept == b * n / old,
    ;
}

/// The refund of a tier change is positive exactly on a downgrade, and
/// what stays plus the refund is the balance left after settling.
proof fn lemma_tier_refund<A>(s: Stream<A>, new_rate: i128, now: u64)
    requires
        new_rate > 0,
    ensures
        tier_refund(s, new_rate, now) > 0 <==> is_downgrade(s, new_rate, now),
        tier_refund(s, new_rate, now) >= 0,
        tier_refund(s, new_rate, now) <= s.settled(now).balance || !is_downgrade(s, new_rate, now),
{
    if is_downgrade(s, new_rate, now) {
        lemma_downgrade_bounds(s, new_rate, now);
    }
}

// ---------------------------------------------------------------------
// Laws.
// ---------------------------------------------------------------------

/// The stream stored by a plan, when it stores one, is well formed.
pub open spec fn stores_well_formed<A>(p: PlanView<A>) -> bool {
    p.storage matches StoredStream::Save(t) ==> t.is_well_formed()
}

/// Every stream the contract stores is well formed (positive rate,
/// balance never negative): `subscribe` creates only well-formed streams,
/// and `collect`, `top_up` and `migrate_tier` keep a well-formed stream
/// well formed.
pub proof fn law_streams_stay_well_formed<A>(
    s: Stream<A>,
    exists: bool,
    token: A,
    subscriber: A,
    creator: A,
    amount: i128,
    rate_per_second: i128,
    new_rate_per_second: i128,
    additional_deposit: i128,
    now: u64,
)
    requires
        s.is_well_formed(),
    ensures
        subscribe_result(exists, token, amount, rate_per_second, now) matches Ok(p) ==> stores_well_formed(p),
        collect_result(Some(s), now) matches Ok(p) ==> stores_well_formed(p),
        s.balance + amount <= i128::MAX ==> (top_up_result(Some(s), amount) matches Ok(p)
            ==> stores_well_formed(p)),
        migrate_tier_result(Some(s), subscriber, creator, new_rate_per_second, additional_deposit, now)
            matches Ok(p) ==> stores_well_formed(p),
{
    lemma_payout_bounds(s, now);
    if new_rate_per_second > 0 {
        lemma_tier_refund(s, new_rate_per_second, now);
        if is_downgrade(s, new_rate_per_second, now) {
            lemma_downgrade_bounds(s, new_rate_per_second, now);
        }
    }
}

/// The contract holds exactly what its streams record: for every accepted
/// call, the recorded balance afterwards equals the recorded balance
/// before plus what the call's transfers bring into the contract (a new
/// stream starts from nothing; a cancelled one ends at nothing).
pub proof fn law_holdings_match_balances<A>(
    s: Stream<A>,
    exists: bool,
    token: A,
    subscriber: A,
    creator: A,
    amount: i128,
    rate_per_second: i128,
    new_rate_per_second: i128,
    additional_deposit: i128,
    now: u64,
)
    requires
        s.is_well_formed(),
    ensures
        subscribe_result(exists, token, amount, rate_per_second, now) matches Ok(p)
            ==> recorded_after(0, p.storage) == net_flow(p.transfers, Party::Contract),
        collect_result(Some(s), now) matches Ok(p)
            ==> recorded_after(s.balance as int, p.storage) == s.balance + net_flow(p.transfers, Party::Contract),
        cancel_result(Some(s), now) matches Ok(p)
            ==> recorded_after(s.balance as int, p.storage) == s.balance + net_flow(p.transfers, Party::Contract),
        s.balance + amount <= i128::MAX ==> (top_up_result(Some(s), amount) matches Ok(p)
            ==> recorded_after(s.balance as int, p.storage) == s.balance + net_flow(p.transfers, Party::Contract)),
        migrate_tier_result(Some(s), subscriber, creator, new_rate_per_second, additional_deposit, now)
            matches Ok(p)
            ==> recorded_after(s.balance as int, p.storage) == s.balance + net_flow(p.transfers, Party::Contract),
{
    let c = Party::Contract;
    lemma_payout_bounds(s, now);
    lemma_collect_flows(s, now, c);
    // subscribe and top_up move one deposit into the contract.
    lemma_net_flow_single(Transfer { from: Party::Subscriber, to: Party::Contract, amount }, c);
    // cancel
    let b = s.settled(now).balance as int;
    lemma_refund_flows(b, c);
    lemma_net_flow_append(collect_transfers(s, now), refund_transfers(b), c);
    // migrate_tier
    if new_rate_per_second > 0 && additional_deposit >= 0 {
        lemma_tier_refund(s, new_rate_per_second, now);
        let r = tier_refund(s, new_rate_per_second, now);
        let dts = if additional_deposit > 0 {
            seq![Transfer { from: Party::Subscriber, to: Party::Contract, amount: additional_deposit }]
        } else {
            seq![]
        };
        lemma_refund_flows(r, c);
        lemma_deposit_flows(additional_deposit, c);
        lemma_net_flow_append(collect_transfers(s, now), refund_transfers(r), c);
        lemma_net_flow_append(collect_transfers(s, now) + refund_transfers(r), dts, c);
        assert(migrate_transfers(s, new_rate_per_second, additional_deposit, now)
            == collect_transfers(s, now) + refund_transfers(r) + dts);
    }
}

/// Every transfer that an accepted call makes moves a positive amount
/// between two distinct parties.
pub proof fn law_transfers_are_positive<A>(
    stored: Option<Stream<A>>,
    exists: bool,
    token: A,
    subscriber: A,
    creator: A,
    amount: i128,
    rate_per_second: i128,
    new_rate_per_second: i128,
    additional_deposit: i128,
    now: u64,
)
    ensures
        subscribe_result(exists, token, amount, rate_per_second, now) matches Ok(p)
            ==> transfers_positive(p.transfers),
        collect_result(stored, now) matches Ok(p) ==> transfers_positive(p.transfers),
        cancel_result(stored, now) matches Ok(p) ==> transfers_positive(p.transfers),
        top_up_result(stored, amount) matches Ok(p) ==> transfers_positive(p.transfers),
        migrate_tier_result(stored, subscriber, creator, new_rate_per_second, additional_deposit, now)
            matches Ok(p) ==> transfers_positive(p.transfers),
{
    if let Some(s) = stored {
        lemma_collect_flows(s, now, Party::Creator);
        let b = s.settled(now).balance as int;
        lemma_refund_flows(b, Party::Creator);
        let ct = collect_transfers(s, now) + refund_transfers(b);
        assert forall|i: int| 0 <= i < ct.len() implies #[trigger] ct[i].amount > 0 && ct[i].from != ct[i].to by {
            if i < collect_transfers(s, now).len() {
                assert(ct[i] == collect_transfers(s, now)[i]);
            } else {
                assert(ct[i] == refund_transfers(b)[i - collect_transfers(s, now).len()]);
            }
        }
        if new_rate_per_second > 0 && additional_deposit >= 0 {
            lemma_tier_refund(s, new_rate_per_second, now);
            let r = tier_refund(s, new_rate_per_second, now);
            lemma_refund_flows(r, Party::Creator);
            let dts = if additional_deposit > 0 {
                seq![Transfer { from: Party::Subscriber, to: Party::Contract, amount: additional_deposit }]
            } else {
                seq![]
            };
            let a = collect_transfers(s, now);
            let m = a + refund_transfers(r) + dts;
            assert(migrate_transfers(s, new_rate_per_second, additional_deposit, now) == m);
            assert forall|i: int| 0 <= i < m.len() implies #[trigger] m[i].amount > 0 && m[i].from != m[i].to by {
                if i < a.len() {
                    assert(m[i] == a[i]);
                } else if i < a.len() + refund_transfers(r).len() {
                    assert(m[i] == refund_transfers(r)[i - a.len()]);
                } else {
                    assert(m[i] == dts[i - a.len() - refund_transfers(r).len()]);
                }
            }
        }
    }
}

/// A stream keeps its token, and its collection time never goes back:
/// after `collect` or `migrate_tier` it is the old one or, when something
/// was paid, the time of the call; `top_up` leaves it alone.
pub proof fn law_token_kept_and_clock_monotone<A>(
    s: Stream<A>,
    subscriber: A,
    creator: A,
    amount: i128,
    new_rate_per_second: i128,
    additional_deposit: i128,
    now: u64,
)
    ensures
        collect_result(Some(s), now) matches Ok(p) ==> (p.storage matches StoredStream::Save(t) ==> {
            &&& t.token == s.token
            &&& t.last_collected == now > s.last_collected
        }),
        top_up_result(Some(s), amount) matches Ok(p) ==> (p.storage matches StoredStream::Save(t) ==> {
            &&& t.token == s.token
            &&& t.last_collected == s.last_collected
            &&& t.rate_per_second == s.rate_per_second
        }),
        migrate_tier_result(Some(s), subscriber, creator, new_rate_per_second, additional_deposit, now)
            matches Ok(p) ==> (p.storage matches StoredStream::Save(t) ==> {
            &&& t.token == s.token
            &&& t.last_collected == s.last_collected || t.last_collected == now > s.last_collected
        }),
{
}

/// Collecting in two steps pays the creator exactly what one collection
/// at the later time would: payouts do not depend on how often the
/// creator collects.
pub proof fn law_collection_is_path_independent<A>(s: Stream<A>, t1: u64, t2: u64)
    requires
        s.is_well_formed(),
        t1 <= t2,
    ensures
        s.payout(t1) + s.settled(t1).payout(t2) == s.payout(t2),
{
    let l = s.last_collected as int;
    let r = s.rate_per_second as int;
    if t1 > s.last_collected {
        assert((t1 - l) * r <= (t2 - l) * r) by (nonlinear_arith)
            requires
                l < t1 <= t2,
                r > 0,
        ;
        assert((t1 - l) * r > 0) by (nonlinear_arith)
            requires
                l < t1,
                r > 0,
        ;
        assert((t1 - l) * r + (t2 - t1) * r == (t2 - l) * r) by (nonlinear_arith);
        if t2 > t1 {
            assert((t2 - t1) * r > 0) by (nonlinear_arith)
                requires
                    t1 < t2,
                    r > 0,
            ;
        }
    }
}

/// A second collection at the same time pays nothing and changes nothing.
pub proof fn law_collect_twice_pays_once<A>(s: Stream<A>, now: u64)
    ensures
        collect_result(Some(s.settled(now)), now) == Ok::<PlanView<A>, StreamError>(PlanView {
            transfers: Seq::<Transfer>::empty(),
            storage: StoredStream::Unchanged,
            event: None,
        }),
{
    assert(collect_transfers(s.settled(now), now) =~= Seq::<Transfer>::empty());
}

/// Cancelling pays the creator what a collection would and refunds the
/// subscriber all the rest: together exactly the stream's balance, after
/// which the stream is gone.
pub proof fn law_cancel_settles_everything<A>(s: Stream<A>, now: u64)
    requires
        s.is_well_formed(),
    ensures
        cancel_result(Some(s), now) matches Ok(p) && {
            &&& net_flow(p.transfers, Party::Creator) == s.payout(now)
            &&& net_flow(p.transfers, Party::Subscriber) == s.balance - s.payout(now)
            &&& net_flow(p.transfers, Party::Contract) == -s.balance
            &&& p.storage == StoredStream::<A>::Remove
        },
{
    lemma_payout_bounds(s, now);
    let b = s.settled(now).balance as int;
    let parties = seq![Party::Creator, Party::Subscriber, Party::Contract];
    assert forall|i: int| 0 <= i < 3 implies net_flow(collect_transfers(s, now) + refund_transfers(b), #[trigger] parties[i])
        == net_flow(collect_transfers(s, now), parties[i]) + net_flow(refund_transfers(b), parties[i]) by {
        lemma_net_flow_append(collect_transfers(s, now), refund_transfers(b), parties[i]);
    }
    lemma_collect_flows(s, now, Party::Creator);
    lemma_collect_flows(s, now, Party::Subscriber);
    lemma_collect_flows(s, now, Party::Contract);
    lemma_refund_flows(b, Party::Creator);
    lemma_refund_flows(b, Party::Subscriber);
    lemma_refund_flows(b, Party::Contract);
    assert(parties[0] == Party::Creator && parties[1] == Party::Subscriber && parties[2] == Party::Contract);
}

/// A tier change first settles at the old rate: the creator receives
/// exactly what `collect` at that time would pay, and the saved stream
/// keeps the settled collection time and the token.
pub proof fn law_tier_change_settles_at_old_rate<A>(
    s: Stream<A>,
    subscriber: A,
    creator: A,
    new_rate_per_second: i128,
    additional_deposit: i128,
    now: u64,
)
    requires
        s.is_well_formed(),
    ensures
        migrate_tier_result(Some(s), subscriber, creator, new_rate_per_second, additional_deposit, now)
            matches Ok(p) ==> {
            &&& net_flow(p.transfers, Party::Creator) == s.payout(now)
            &&& p.transfers.take(collect_transfers(s, now).len() as int) == collect_transfers(s, now)
            &&& p.storage matches StoredStream::Save(t) && t.last_collected == s.settled(now).last_collected
                && t.token == s.token && t.rate_per_second == new_rate_per_second
        },
{
    if new_rate_per_second > 0 && additional_deposit >= 0 {
        let c = Party::Creator;
        lemma_tier_refund(s, new_rate_per_second, now);
        let r = tier_refund(s, new_rate_per_second, now);
        let a = collect_transfers(s, now);
        let dts = if additional_deposit > 0 {
            seq![Transfer { from: Party::Subscriber, to: Party::Contract, amount: additional_deposit }]
        } else {
            seq![]
        };
        lemma_collect_flows(s, now, c);
        lemma_refund_flows(r, c);
        lemma_deposit_flows(additional_deposit, c);
        lemma_net_flow_append(a, refund_transfers(r), c);
        lemma_net_flow_append(a + refund_transfers(r), dts, c);
        let m = a + refund_transfers(r) + dts;
        assert(migrate_transfers(s, new_rate_per_second, additional_deposit, now) == m);
        assert(m.take(a.len() as int) =~= a);
    }
}

/// On a downgrade the stream keeps its settled balance prorated to the new
/// rate, rounded down, and refunds the subscriber the rest; an upgrade (or
/// keeping the rate) refunds nothing, the subscriber paying in only the
/// additional deposit.
pub proof fn law_tier_change_prorates_downgrades<A>(
    s: Stream<A>,
    subscriber: A,
    creator: A,
    new_rate_per_second: i128,
    additional_deposit: i128,
    now: u64,
)
    requires
        s.is_well_formed(),
    ensures
        migrate_tier_result(Some(s), subscriber, creator, new_rate_per_second, additional_deposit, now)
            matches Ok(p) ==> {
            let b = s.settled(now).balance as int;
            let old_rate = s.rate_per_second as int;
            let refund = net_flow(p.transfers, Party::Subscriber) + additional_deposit;
            let kept = b - refund;
            &&& p.storage matches StoredStream::Save(t) && t.balance == kept + additional_deposit
            &&& 0 <= refund
            &&& (new_rate_per_second >= old_rate ==> refund == 0)
            &&& (new_rate_per_second < old_rate ==> {
                &&& kept * old_rate <= b * new_rate_per_second
                &&& b * new_rate_per_second < (kept + 1) * old_rate
            })
        },
{
    if new_rate_per_second > 0 && additional_deposit >= 0 {
        let sp = Party::Subscriber;
        lemma_payout_bounds(s, now);
        lemma_tier_refund(s, new_rate_per_second, now);
        let r = tier_refund(s, new_rate_per_second, now);
        let a = collect_transfers(s, now);
        let dts = if additional_deposit > 0 {
            seq![Transfer { from: Party::Subscriber, to: Party::Contract, amount: additional_deposit }]
        } else {
            seq![]
        };
        lemma_collect_flows(s, now, sp);
        lemma_refund_flows(r, sp);
        lemma_deposit_flows(additional_deposit, sp);
        lemma_net_flow_append(a, refund_transfers(r), sp);
        lemma_net_flow_append(a + refund_transfers(r), dts, sp);
        assert(migrate_transfers(s, new_rate_per_second, additional_deposit, now) == a + refund_transfers(r) + dts);
        if is_downgrade(s, new_rate_per_second, now) {
            lemma_downgrade_bounds(s, new_rate_per_second, now);
        } else if new_rate_per_second < s.rate_per_second {
            // Nothing is left after settling: nothing to prorate.
            assert(s.settled(now).balance == 0);
            assert(0 * s.rate_per_second <= 0 * new_rate_per_second < 1 * s.rate_per_second) by (nonlinear_arith)
                requires
                    s.rate_per_second > new_rate_per_second > 0,
            ;
        }
    }
}

/// Changing to the same rate with no deposit is a collection: the same
/// transfers, the same stream recorded afterwards, and no event.
pub proof fn law_same_tier_is_collect<A>(s: Stream<A>, subscriber: A, creator: A, now: u64)
    requires
        s.is_well_formed(),
    ensures
        migrate_tier_result(Some(s), subscriber, creator, s.rate_per_second, 0, now) matches Ok(p) && {
            &&& collect_result(Some(s), now) matches Ok(q)
            &&& p.transfers == q.transfers
            &&& p.storage == StoredStream::Save(s.settled(now))
            &&& recorded_after(s.balance as int, q.storage) == s.settled(now).balance
            &&& p.event.is_none()
        },
{
    lemma_payout_bounds(s, now);
    let a = collect_transfers(s, now);
    assert(refund_transfers(tier_refund(s, s.rate_per_second, now)) =~= Seq::<Transfer>::empty());
    assert(migrate_transfers(s, s.rate_per_second, 0, now) =~= a);
}


// ---------------------------------------------------------------------
// What each operation does, stated in terms of its inputs alone.
// ---------------------------------------------------------------------

/// Opening a stream: it is refused exactly when the deposit or the rate is
/// not positive, or when a stream already exists; otherwise the subscriber
/// pays the deposit into the contract, and the stream stored records the
/// token, the rate, the deposit as its balance and the current time.
pub proof fn law_subscribe_outcome<A>(exists: bool, token: A, amount: i128, rate_per_second: i128, now: u64)
    ensures
        subscribe_result(exists, token, amount, rate_per_second, now) is Err <==> (amount <= 0
            || rate_per_second <= 0 || exists),
        amount <= 0 || rate_per_second <= 0 ==> subscribe_result(exists, token, amount, rate_per_second, now)
            == Err::<PlanView<A>, StreamError>(StreamError::InvalidAmountOrRate),
        amount > 0 && rate_per_second > 0 && exists ==> subscribe_result(exists, token, amount, rate_per_second, now)
            == Err::<PlanView<A>, StreamError>(StreamError::StreamAlreadyExists),
        amount > 0 && rate_per_second > 0 && !exists ==> (subscribe_result(exists, token, amount, rate_per_second, now)
            matches Ok(p) && {
            &&& p.transfers.len() == 1
            &&& p.transfers[0] == (Transfer { from: Party::Subscriber, to: Party::Contract, amount })
            &&& p.storage matches StoredStream::Save(t) && t.token == token && t.rate_per_second == rate_per_second
                && t.balance == amount && t.last_collected == now
            &&& p.event.is_none()
        }),
{
}

/// Collecting is accepted exactly when a stream is stored. Once time has
/// passed since the last payout, the creator receives what accrued at the
/// stream's rate, capped at its balance, when that is positive; the stored
/// stream then keeps its token and rate, loses exactly that amount and
/// records the time of the call. Otherwise nothing moves and nothing is
/// stored. On a well-formed stream something is paid exactly when time has
/// passed and the balance is positive, and never more than the balance.
pub proof fn law_collect_outcome<A>(s: Stream<A>, now: u64)
    ensures
        collect_result(None::<Stream<A>>, now) == Err::<PlanView<A>, StreamError>(StreamError::StreamNotFound),
        collect_result(Some(s), now) matches Ok(p) && {
            let accrued = (now - s.last_collected) * s.rate_per_second;
            let capped = if accrued < s.balance { accrued } else { s.balance as int };
            let paid = if now > s.last_collected && capped > 0 { capped } else { 0 };
            &&& s.is_well_formed() ==> 0 <= paid <= s.balance
            &&& s.is_well_formed() ==> (paid > 0 <==> now > s.last_collected && s.balance > 0)
            &&& paid > 0 ==> {
                &&& p.transfers == seq![Transfer { from: Party::Contract, to: Party::Creator, amount: paid as i128 }]
                &&& p.storage matches StoredStream::Save(t) && t.token == s.token
                    && t.rate_per_second == s.rate_per_second && t.balance == s.balance - paid
                    && t.last_collected == now
            }
            &&& paid == 0 ==> p.transfers.len() == 0 && p.storage == StoredStream::<A>::Unchanged
            &&& p.event.is_none()
        },
{
    if now > s.last_collected && s.rate_per_second > 0 {
        assert((now - s.last_collected) * s.rate_per_second > 0) by (nonlinear_arith)
            requires
                now > s.last_collected,
                s.rate_per_second > 0,
        ;
    }
}

/// Cancelling is accepted exactly when a stream is stored: the creator
/// receives what a collection would pay, the subscriber the rest of the
/// balance (each only when positive), and the stream is removed.
pub proof fn law_cancel_outcome<A>(s: Stream<A>, now: u64)
    ensures
        cancel_result(None::<Stream<A>>, now) == Err::<PlanView<A>, StreamError>(StreamError::StreamNotFound),
        cancel_result(Some(s), now) matches Ok(p) && {
            let accrued = (now - s.last_collected) * s.rate_per_second;
            let capped = if accrued < s.balance { accrued } else { s.balance as int };
            let paid = if now > s.last_collected && capped > 0 { capped } else { 0 };
            let rest = s.balance - paid;
            &&& p.transfers == (if paid > 0 {
                seq![Transfer { from: Party::Contract, to: Party::Creator, amount: paid as i128 }]
            } else {
                seq![]
            }) + (if rest > 0 {
                seq![Transfer { from: Party::Contract, to: Party::Subscriber, amount: rest as i128 }]
            } else {
                seq![]
            })
            &&& p.storage == StoredStream::<A>::Remove
            &&& p.event.is_none()
        },
{
}

/// Topping up: refused exactly when the amount is not positive or there is
/// no stream; otherwise (whatever the balance, an empty stream included)
/// the subscriber pays the amount in and the stored stream is the same
/// stream with the amount added to its balance.
pub proof fn law_top_up_outcome<A>(s: Stream<A>, amount: i128)
    ensures
        amount <= 0 ==> top_up_result(Some(s), amount) == Err::<PlanView<A>, StreamError>(
            StreamError::InvalidTopUpAmount,
        ),
        amount <= 0 ==> top_up_result(None::<Stream<A>>, amount) == Err::<PlanView<A>, StreamError>(
            StreamError::InvalidTopUpAmount,
        ),
        amount > 0 ==> top_up_result(None::<Stream<A>>, amount) == Err::<PlanView<A>, StreamError>(
            StreamError::StreamNotFound,
        ),
        amount > 0 && s.balance + amount <= i128::MAX ==> (top_up_result(Some(s), amount) matches Ok(p) && {
            &&& p.transfers == seq![Transfer { from: Party::Subscriber, to: Party::Contract, amount }]
            &&& p.storage matches StoredStream::Save(t) && t.token == s.token
                && t.rate_per_second == s.rate_per_second && t.balance == s.balance + amount
                && t.last_collected == s.last_collected
            &&& p.event.is_none()
        }),
{
}

/// Changing the tier of a well-formed stream. It is refused for a rate that
/// is not positive, then for a negative deposit, then when there is no
/// stream. Otherwise, when the amounts fit in an `i128`, it is accepted
/// (whatever the balance, an empty stream included): the creator is paid
/// at the old rate as a collection would, then on a downgrade the rest is
/// prorated to the new rate (rounded down) and the excess refunded, then
/// the deposit is paid in; the stored stream keeps its token, takes the
/// new rate, and records the payout time; `TierChanged` with the old and
/// the new rate is published exactly when the rate changes, whatever the
/// deposit.
pub proof fn law_migrate_tier_outcome<A>(
    s: Stream<A>,
    subscriber: A,
    creator: A,
    new_rate_per_second: i128,
    additional_deposit: i128,
    now: u64,
)
    requires
        s.is_well_formed(),
    ensures
        new_rate_per_second <= 0 ==> migrate_tier_result(Some(s), subscriber, creator, new_rate_per_second,
            additional_deposit, now) == Err::<PlanView<A>, StreamError>(StreamError::InvalidNewRate),
        new_rate_per_second > 0 && additional_deposit < 0 ==> migrate_tier_result(Some(s), subscriber, creator,
            new_rate_per_second, additional_deposit, now) == Err::<PlanView<A>, StreamError>(
            StreamError::NegativeDeposit),
        new_rate_per_second > 0 && additional_deposit >= 0 ==> migrate_tier_result(None::<Stream<A>>, subscriber,
            creator, new_rate_per_second, additional_deposit, now) == Err::<PlanView<A>, StreamError>(
            StreamError::StreamNotFound),
        new_rate_per_second > 0 && additional_deposit >= 0 ==> (migrate_tier_result(Some(s), subscriber,
            creator, new_rate_per_second, additional_deposit, now) matches Err(e) ==> e == StreamError::Overflow
            && (s.balance * new_rate_per_second > i128::MAX || s.balance + additional_deposit > i128::MAX)),
        migrate_tier_result(Some(s), subscriber, creator, new_rate_per_second, additional_deposit, now)
            matches Ok(p) ==> p.event == if s.rate_per_second != new_rate_per_second {
            Some(TierChanged { subscriber, creator, old_rate: s.rate_per_second, new_rate: new_rate_per_second })
        } else {
            None
        },
        new_rate_per_second > 0 && additional_deposit >= 0 && s.balance * new_rate_per_second <= i128::MAX
            && s.balance + additional_deposit <= i128::MAX ==> (migrate_tier_result(Some(s), subscriber, creator,
            new_rate_per_second, additional_deposit, now) matches Ok(p) && {
            let old_rate = s.rate_per_second;
            let accrued = (now - s.last_collected) * old_rate;
            let paid = if now <= s.last_collected {
                0
            } else if accrued < s.balance {
                accrued
            } else {
                s.balance as int
            };
            let left = s.balance - paid;
            let kept = if new_rate_per_second < old_rate && left > 0 {
                left * new_rate_per_second / (old_rate as int)
            } else {
                left
            };
            let refund = left - kept;
            &&& 0 <= kept <= left
            &&& p.transfers == (if paid > 0 {
                seq![Transfer { from: Party::Contract, to: Party::Creator, amount: paid as i128 }]
            } else {
                seq![]
            }) + (if refund > 0 {
                seq![Transfer { from: Party::Contract, to: Party::Subscriber, amount: refund as i128 }]
            } else {
                seq![]
            }) + (if additional_deposit > 0 {
                seq![Transfer { from: Party::Subscriber, to: Party::Contract, amount: additional_deposit }]
            } else {
                seq![]
            })
            &&& p.storage matches StoredStream::Save(t) && t.token == s.token
                && t.rate_per_second == new_rate_per_second && t.balance == kept + additional_deposit
                && t.last_collected == (if paid > 0 { now } else { s.last_collected })
            &&& p.event == if old_rate != new_rate_per_second {
                Some(TierChanged { subscriber, creator, old_rate, new_rate: new_rate_per_second })
            } else {
                None
            }
        }),
{
    lemma_payout_bounds(s, now);
    if now > s.last_collected {
        assert((now - s.last_collected) * s.rate_per_second > 0) by (nonlinear_arith)
            requires
                now > s.last_collected,
                s.rate_per_second > 0,
        ;
    }
    if new_rate_per_second > 0 && additional_deposit >= 0 {
        lemma_tier_refund(s, new_rate_per_second, now);
        let left = s.settled(now).balance as int;
        let b = s.balance as int;
        let n = new_rate_per_second as int;
        assert(left * n <= b * n) by (nonlinear_arith)
            requires
                0 <= left <= b,
                n > 0,
        ;
        if is_downgrade(s, new_rate_per_second, now) {
            lemma_downgrade_bounds(s, new_rate_per_second, now);
        }
    }
}

/// The accrued amount of a collection fits in an `i128` exactly when no
/// time has passed since the last payout or the elapsed seconds times the
/// rate lie within the `i128` range: only an overflowing multiplication
/// keeps a collection from going through.
pub proof fn law_accrual_range_is_exact<A>(s: Stream<A>, now: u64)
    ensures
        s.accrual_in_range(now) <==> (now <= s.last_collected || i128::MIN <= (now - s.last_collected)
            * s.rate_per_second <= i128::MAX),
{
}

} // verus!
