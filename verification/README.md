# substream_contracts

Token subscription streams: a subscriber deposits tokens towards a creator,
who collects what accrues at a fixed rate per second. The accounting is a
Verus-verified library; the Soroban contract that runs it on the ledger is a
thin shell around it.

- `src/stream.rs`: the stream record and what a collection at a given ledger
  time pays (`accrued`, `due`, `payout`, `settled`).
- `src/plan.rs`: plans (token transfers between subscriber, creator and
  contract; what becomes of the stored stream; the `TierChanged` event) and
  the reasons a call is refused.
- `src/contract.rs`: `SubStreamContract`'s operations `subscribe`,
  `collect`, `cancel`, `top_up` and `migrate_tier`, each specified exactly by
  a spec function of the stored stream, the arguments and the ledger time.
- `src/laws.rs`: properties across operations, proved: stored streams stay
  well formed, the contract holds exactly what its streams record, transfers
  are positive, collection is path independent, cancelling settles the whole
  balance, tier changes settle at the old rate and prorate downgrades.
- `app/lib.rs`: the Soroban contract (authorization, storage, token
  transfers, ledger time, events), which carries out the library's plans.
