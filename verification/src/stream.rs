use vstd::prelude::*;

verus! {

/// One subscription stream: the token it is paid in, the rate at which it
/// accrues to the creator, the tokens it still holds, and the ledger time
/// of the last payout. `A` is the type of addresses on the ledger.
#[derive(Debug, Clone, PartialEq, Eq)]
pub struct Stream<A> {
    pub token: A,
    pub rate_per_second: i128,
    pub balance: i128,
    pub last_collected: u64,
}

impl<A> Stream<A> {
    /// What every stream that the contract stores satisfies: a positive
    /// rate and a balance that is never negative.
    pub open spec fn is_well_formed(self) -> bool {
        self.rate_per_second > 0 && self.balance >= 0
    }

    /// Tokens accrued since the last payout, at ledger time `now`.
    pub open spec fn accrued(self, now: u64) -> int {
        if now <= self.last_collected {
            0
        } else {
            (now - self.last_collected) * self.rate_per_second
        }
    }

    /// The accrued amount can be computed in `i128`.
    pub open spec fn accrual_in_range(self, now: u64) -> bool {
        i128::MIN <= self.accrued(now) <= i128::MAX
    }

    /// What a collection at `now` would pay: the accrued amount, capped at
    /// the balance.
    pub open spec fn due(self, now: u64) -> int {
        if self.accrued(now) > self.balance {
            self.balance as int
        } else {
            self.accrued(now)
        }
    }

    /// A collection at `now` moves tokens (and only then changes the stream).
    pub open spec fn pays_out(self, now: u64) -> bool {
        now > self.last_collected && self.due(now) > 0
    }

    /// The amount a collection at `now` transfers to the creator.
    pub open spec fn payout(self, now: u64) -> int {
        if self.pays_out(now) {
            self.due(now)
        } else {
            0
        }
    }

    /// The stream after a collection at `now`.
    pub open spec fn settled(self, now: u64) -> Stream<A> {
        if self.pays_out(now) {
            Stream {
                token: self.token,
                rate_per_second: self.rate_per_second,
                balance: (self.balance - self.due(now)) as i128,
                last_collected: now,
            }
        } else {
            self
        }
    }

    /// Whether the accrued amount at `now` can be computed without
    /// overflow; a collection on a stream where it cannot is refused by the
    /// ledger (the multiplication traps).
    pub fn accrual_fits(&self, now: u64) -> (fits: bool)
        ensures
            fits == self.accrual_in_range(now),
    {
        if now <= self.last_collected {
            true
        } else {
            let elapsed: i128 = (now - self.last_collected) as i128;
            elapsed.checked_mul(self.rate_per_second).is_some()
        }
    }

    /// Whether `amount` can be added to the balance without overflow.
    pub fn can_add_to_balance(&self, amount: i128) -> (fits: bool)
        ensures
            fits == (i128::MIN <= self.balance + amount <= i128::MAX),
    {
        self.balance.checked_add(amount).is_some()
    }
}

} // verus!
