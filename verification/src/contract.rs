use vstd::prelude::*;
use crate::stream::Stream;
use crate::plan::{Party, Transfer, TierChanged, StoredStream, Plan, PlanView, StreamError, outcome};

verus! {

/// The transfers that a collection at `now` makes from the stream `s`:
/// the amount due, from the contract to the creator, when there is one.
pub open spec fn collect_transfers<A>(s: Stream<A>, now: u64) -> Seq<Transfer> {
    if s.pays_out(now) {
        seq![Transfer { from: Party::Contract, to: Party::Creator, amount: s.due(now) as i128 }]
    } else {
        seq![]
    }
}

/// The result of `subscribe`.
pub open spec fn subscribe_result<A>(
    exists: bool,
    token: A,
    amount: i128,
    rate_per_second: i128,
    now: u64,
) -> Result<PlanView<A>, StreamError> {
    if amount <= 0 || rate_per_second <= 0 {
        Err(StreamError::InvalidAmountOrRate)
    } else if exists {
        Err(StreamError::StreamAlreadyExists)
    } else {
        Ok(PlanView {
            transfers: seq![Transfer { from: Party::Subscriber, to: Party::Contract, amount }],
            storage: StoredStream::Save(
                Stream { token, rate_per_second, balance: amount, last_collected: now },
            ),
            event: None,
        })
    }
}

/// The result of `collect`.
pub open spec fn collect_result<A>(stored: Option<Stream<A>>, now: u64) -> Result<PlanView<A>, StreamError> {
    match stored {
        None => Err(StreamError::StreamNotFound),
        Some(s) => Ok(PlanView {
            transfers: collect_transfers(s, now),
            storage: if s.pays_out(now) { StoredStream::Save(s.settled(now)) } else { StoredStream::Unchanged },
            event: None,
        }),
    }
}

/// The refund of what a stream still holds, to the subscriber, when it
/// holds anything.
pub open spec fn refund_transfers(balance: int) -> Seq<Transfer> {
    if balance > 0 {
        seq![Transfer { from: Party::Contract, to: Party::Subscriber, amount: balance as i128 }]
    } else {
        seq![]
    }
}

/// The result of `cancel`.
pub open spec fn cancel_result<A>(stored: Option<Stream<A>>, now: u64) -> Result<PlanView<A>, StreamError> {
    match stored {
        None => Err(StreamError::StreamNotFound),
        Some(s) => Ok(PlanView {
            transfers: collect_transfers(s, now) + refund_transfers(s.settled(now).balance as int),
            storage: StoredStream::Remove,
            event: None,
        }),
    }
}

/// The result of `top_up`.
pub open spec fn top_up_result<A>(stored: Option<Stream<A>>, amount: i128) -> Result<PlanView<A>, StreamError> {
    if amount <= 0 {
        Err(StreamError::InvalidTopUpAmount)
    } else {
        match stored {
            None => Err(StreamError::StreamNotFound),
            Some(s) => Ok(PlanView {
                transfers: seq![Transfer { from: Party::Subscriber, to: Party::Contract, amount }],
                storage: StoredStream::Save(Stream { balance: (s.balance + amount) as i128, ..s }),
                event: None,
            }),
        }
    }
}

/// What a stream holding `balance` keeps when its rate drops from
/// `old_rate` to `new_rate`: the balance prorated to the new rate, rounded
/// down.
pub open spec fn kept_on_downgrade(balance: int, old_rate: int, new_rate: int) -> int {
    balance * new_rate / old_rate
}

/// A tier change of `s` to `new_rate` at `now` refunds part of the balance
/// left after settling: the rate drops and something is left.
pub open spec fn is_downgrade<A>(s: Stream<A>, new_rate: i128, now: u64) -> bool {
    new_rate < s.rate_per_second && s.settled(now).balance > 0
}

/// The balance left after settling and, on a downgrade, refunding.
pub open spec fn balance_after_refund<A>(s: Stream<A>, new_rate: i128, now: u64) -> int {
    let b = s.settled(now).balance as int;
    if is_downgrade(s, new_rate, now) {
        kept_on_downgrade(b, s.rate_per_second as int, new_rate as int)
    } else {
        b
    }
}

/// The refund of a tier change (0 unless it is a downgrade).
pub open spec fn tier_refund<A>(s: Stream<A>, new_rate: i128, now: u64) -> int {
    s.settled(now).balance - balance_after_refund(s, new_rate, now)
}

/// The transfers of a tier change: settling at the old rate, the refund,
/// then the additional deposit.
pub open spec fn migrate_transfers<A>(s: Stream<A>, new_rate: i128, deposit: i128, now: u64) -> Seq<Transfer> {
    collect_transfers(s, now) + refund_transfers(tier_refund(s, new_rate, now)) + if deposit > 0 {
        seq![Transfer { from: Party::Subscriber, to: Party::Contract, amount: deposit }]
    } else {
        seq![]
    }
}

/// The result of `migrate_tier`.
pub open spec fn migrate_tier_result<A>(
    stored: Option<Stream<A>>,
    subscriber: A,
    creator: A,
    new_rate_per_second: i128,
    additional_deposit: i128,
    now: u64,
) -> Result<PlanView<A>, StreamError> {
    if new_rate_per_second <= 0 {
        Err(StreamError::InvalidNewRate)
    } else if additional_deposit < 0 {
        Err(StreamError::NegativeDeposit)
    } else {
        match stored {
            None => Err(StreamError::StreamNotFound),
            Some(s) => {
                let b = s.settled(now).balance as int;
                let kept = balance_after_refund(s, new_rate_per_second, now);
                if is_downgrade(s, new_rate_per_second, now) && b * new_rate_per_second > i128::MAX {
                    Err(StreamError::Overflow)
                } else if additional_deposit > 0 && kept + additional_deposit > i128::MAX {
                    Err(StreamError::Overflow)
                } else {
                    Ok(PlanView {
                        transfers: migrate_transfers(s, new_rate_per_second, additional_deposit, now),
                        storage: StoredStream::Save(Stream {
                            token: s.token,
                            rate_per_second: new_rate_per_second,
                            balance: (kept + additional_deposit) as i128,
                            last_collected: s.settled(now).last_collected,
                        }),
                        event: if s.rate_per_second != new_rate_per_second {
                            Some(TierChanged {
                                subscriber,
                                creator,
                                old_rate: s.rate_per_second,
                                new_rate: new_rate_per_second,
                            })
                        } else {
                            None
                        },
                    })
                }
            },
        }
    }
}

/// `x / d` is below `b` when `x` is below `b * d`.
proof fn lemma_div_below(x: int, b: int, d: int)
    requires
        0 <= x,
        0 < d,
        x < b * d,
    ensures
        0 <= x / d < b,
{
    assert(0 <= x / d) by (nonlinear_arith)
        requires
            0 <= x,
            0 < d,
    ;
    assert(x / d < b) by (nonlinear_arith)
        requires
            0 <= x,
            0 < d,
            x < b * d,
    ;
}

/// Settles `stream` at `now`: appends the payout to `transfers` and
/// returns the stream after it.
fn settle<A>(stream: Stream<A>, now: u64, transfers: &mut Vec<Transfer>) -> (settled: Stream<A>)
    requires
        stream.accrual_in_range(now),
    ensures
        settled == stream.settled(now),
        final(transfers)@ == old(transfers)@ + collect_transfers(stream, now),
{
    let mut stream = stream;
    if now <= stream.last_collected {
        assert(old(transfers)@ + collect_transfers(stream, now) =~= old(transfers)@);
        return stream;
    }
    let elapsed: i128 = (now - stream.last_collected) as i128;
    let mut amount: i128 = elapsed * stream.rate_per_second;
    if amount > stream.balance {
        amount = stream.balance;
    }
    if amount > 0 {
        transfers.push(Transfer { from: Party::Contract, to: Party::Creator, amount });
        stream.balance = stream.balance - amount;
        stream.last_collected = now;
    } else {
        assert(old(transfers)@ + collect_transfers(stream, now) =~= old(transfers)@);
    }
    stream
}

/// The subscription contract: each operation decides, from the stored
/// stream between a subscriber and a creator (if any), the call's
/// arguments and the ledger time `now`, what the call does.
pub struct SubStreamContract;

impl SubStreamContract {
    /// Opens a stream that deposits `amount` and accrues at
    /// `rate_per_second` from `now`; `exists` tells whether the subscriber
    /// already streams to this creator.
    pub fn subscribe<A>(
        exists: bool,
        token: A,
        amount: i128,
        rate_per_second: i128,
        now: u64,
    ) -> (r: Result<Plan<A>, StreamError>)
        ensures
            outcome(r) == subscribe_result(exists, token, amount, rate_per_second, now),
    {
        if amount <= 0 || rate_per_second <= 0 {
            return Err(StreamError::InvalidAmountOrRate);
        }
        if exists {
            return Err(StreamError::StreamAlreadyExists);
        }
        let mut transfers: Vec<Transfer> = Vec::new();
        transfers.push(Transfer { from: Party::Subscriber, to: Party::Contract, amount });
        let stream = Stream { token, rate_per_second, balance: amount, last_collected: now };
        let plan = Plan { transfers, storage: StoredStream::Save(stream), event: None };
        assert(plan@.transfers =~= seq![Transfer { from: Party::Subscriber, to: Party::Contract, amount }]);
        Ok(plan)
    }

    /// Pays the creator what has accrued since the last payout, capped at
    /// the stream's balance.
    pub fn collect<A>(stored: Option<Stream<A>>, now: u64) -> (r: Result<Plan<A>, StreamError>)
        requires
            stored matches Some(s) ==> s.accrual_in_range(now),
        ensures
            outcome(r) == collect_result(stored, now),
    {
        let stream = match stored {
            None => {
                return Err(StreamError::StreamNotFound);
            },
            Some(s) => s,
        };
        let ghost before = stream;
        let mut transfers: Vec<Transfer> = Vec::new();
        let settled = settle(stream, now, &mut transfers);
        assert(transfers@ =~= collect_transfers(before, now));
        let storage = if transfers.len() > 0 {
            StoredStream::Save(settled)
        } else {
            StoredStream::Unchanged
        };
        Ok(Plan { transfers, storage, event: None })
    }

    /// Ends the stream: settles what has accrued, refunds the rest to the
    /// subscriber, and removes the stream.
    pub fn cancel<A>(stored: Option<Stream<A>>, now: u64) -> (r: Result<Plan<A>, StreamError>)
        requires
            stored matches Some(s) ==> s.accrual_in_range(now),
        ensures
            outcome(r) == cancel_result(stored, now),
    {
        let stream = match stored {
            None => {
                return Err(StreamError::StreamNotFound);
            },
            Some(s) => s,
        };
        let ghost before = stream;
        let mut transfers: Vec<Transfer> = Vec::new();
        let settled = settle(stream, now, &mut transfers);
        if settled.balance > 0 {
            transfers.push(Transfer { from: Party::Contract, to: Party::Subscriber, amount: settled.balance });
        }
        assert(transfers@ =~= collect_transfers(before, now) + refund_transfers(before.settled(now).balance as int));
        Ok(Plan { transfers, storage: StoredStream::Remove, event: None })
    }

    /// Adds `amount` to the stream's balance.
    pub fn top_up<A>(stored: Option<Stream<A>>, amount: i128) -> (r: Result<Plan<A>, StreamError>)
        requires
            amount > 0 ==> (stored matches Some(s) ==> s.balance + amount <= i128::MAX),
        ensures
            outcome(r) == top_up_result(stored, amount),
    {
        if amount <= 0 {
            return Err(StreamError::InvalidTopUpAmount);
        }
        let mut stream = match stored {
            None => {
                return Err(StreamError::StreamNotFound);
            },
            Some(s) => s,
        };
        let mut transfers: Vec<Transfer> = Vec::new();
        transfers.push(Transfer { from: Party::Subscriber, to: Party::Contract, amount });
        stream.balance = stream.balance + amount;
        let plan = Plan { transfers, storage: StoredStream::Save(stream), event: None };
        assert(plan@.transfers =~= seq![Transfer { from: Party::Subscriber, to: Party::Contract, amount }]);
        Ok(plan)
    }

    /// Changes the stream's rate. What accrued at the old rate is settled
    /// first; on a downgrade the balance is prorated to the new rate and
    /// the excess refunded to the subscriber; `additional_deposit` (0 for
    /// none) is then added. A `TierChanged` event is published when the
    /// rate changes.
    pub fn migrate_tier<A>(
        stored: Option<Stream<A>>,
        subscriber: A,
        creator: A,
        new_rate_per_second: i128,
        additional_deposit: i128,
        now: u64,
    ) -> (r: Result<Plan<A>, StreamError>)
        requires
            new_rate_per_second > 0 && additional_deposit >= 0 ==> (stored matches Some(s)
                ==> s.accrual_in_range(now)),
        ensures
            outcome(r) == migrate_tier_result(
                stored,
                subscriber,
                creator,
                new_rate_per_second,
                additional_deposit,
                now,
            ),
    {
        if new_rate_per_second <= 0 {
            return Err(StreamError::InvalidNewRate);
        }
        if additional_deposit < 0 {
            return Err(StreamError::NegativeDeposit);
        }
        let stream = match stored {
            None => {
                return Err(StreamError::StreamNotFound);
            },
            Some(s) => s,
        };
        let ghost before = stream;
        let old_rate = stream.rate_per_second;
        let mut transfers: Vec<Transfer> = Vec::new();
        let mut stream = settle(stream, now, &mut transfers);
        assert(transfers@ =~= collect_transfers(before, now));
        let mut balance = stream.balance;
        if new_rate_per_second < old_rate && balance > 0 {
            let scaled = match balance.checked_mul(new_rate_per_second) {
                None => {
                    return Err(StreamError::Overflow);
                },
                Some(v) => v,
            };
            let tokens_to_keep = match scaled.checked_div(old_rate) {
                None => {
                    return Err(StreamError::Overflow);
                },
                Some(v) => v,
            };
            proof {
                assert(balance * new_rate_per_second < balance * old_rate) by (nonlinear_arith)
                    requires
                        balance > 0,
                        new_rate_per_second < old_rate,
                ;
                lemma_div_below(scaled as int, balance as int, old_rate as int);
            }
            let refund = balance - tokens_to_keep;
            if refund > 0 {
                transfers.push(Transfer { from: Party::Contract, to: Party::Subscriber, amount: refund });
                balance = tokens_to_keep;
            }
        }
        assert(transfers@ =~= collect_transfers(before, now) + refund_transfers(
            tier_refund(before, new_rate_per_second, now),
        ));
        stream.rate_per_second = new_rate_per_second;
        stream.balance = balance;
        if additional_deposit > 0 {
            transfers.push(
                Transfer { from: Party::Subscriber, to: Party::Contract, amount: additional_deposit },
            );
            stream.balance = match stream.balance.checked_add(additional_deposit) {
                None => {
                    return Err(StreamError::Overflow);
                },
                Some(v) => v,
            };
        }
        assert(transfers@ =~= migrate_transfers(before, new_rate_per_second, additional_deposit, now));
        let event = if old_rate != new_rate_per_second {
            Some(TierChanged { subscriber, creator, old_rate, new_rate: new_rate_per_second })
        } else {
            None
        };
        Ok(Plan { transfers, storage: StoredStream::Save(stream), event })
    }
}

} // verus!
