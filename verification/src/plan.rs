use vstd::prelude::*;
use crate::stream::Stream;

verus! {

/// The parties between which a stream moves tokens. The contract itself
/// holds what the streams hold.
#[derive(Debug, Clone, Copy, PartialEq, Eq)]
pub enum Party {
    Subscriber,
    Creator,
    Contract,
}

/// A transfer of `amount` tokens of the stream's token.
#[derive(Debug, Clone, Copy, PartialEq, Eq)]
pub struct Transfer {
    pub from: Party,
    pub to: Party,
    pub amount: i128,
}

/// Published when a stream changes its rate.
#[derive(Debug, PartialEq, Eq)]
pub struct TierChanged<A> {
    pub subscriber: A,
    pub creator: A,
    pub old_rate: i128,
    pub new_rate: i128,
}

/// What becomes of the stored stream.
#[derive(Debug, PartialEq, Eq)]
pub enum StoredStream<A> {
    Unchanged,
    Save(Stream<A>),
    Remove,
}

/// The outcome of an accepted call: the transfers to make, in order, what
/// to store for the stream, and the event to publish, if any.
#[derive(Debug, PartialEq, Eq)]
pub struct Plan<A> {
    pub transfers: Vec<Transfer>,
    pub storage: StoredStream<A>,
    pub event: Option<TierChanged<A>>,
}

/// The mathematical view of a [`Plan`].
pub struct PlanView<A> {
    pub transfers: Seq<Transfer>,
    pub storage: StoredStream<A>,
    pub event: Option<TierChanged<A>>,
}

impl<A> View for Plan<A> {
    type V = PlanView<A>;

    open spec fn view(&self) -> PlanView<A> {
        PlanView { transfers: self.transfers@, storage: self.storage, event: self.event }
    }
}

/// Why a call is refused.
#[derive(Debug, Clone, Copy, PartialEq, Eq)]
pub enum StreamError {
    /// A new stream needs a positive deposit and a positive rate.
    InvalidAmountOrRate,
    /// The subscriber already streams to this creator.
    StreamAlreadyExists,
    /// No stream from this subscriber to this creator.
    StreamNotFound,
    /// A top-up needs a positive amount.
    InvalidTopUpAmount,
    /// A tier change needs a positive rate.
    InvalidNewRate,
    /// A tier change cannot withdraw through its deposit.
    NegativeDeposit,
    /// An amount does not fit in an `i128`.
    Overflow,
}

impl StreamError {
    /// The message with which the ledger rejects the call.
    pub fn message(&self) -> (text: &'static str)
        ensures
            *self == StreamError::InvalidAmountOrRate ==> text@ == "amount and rate must be positive"@,
            *self == StreamError::StreamAlreadyExists ==> text@ == "stream already exists"@,
            *self == StreamError::StreamNotFound ==> text@ == "stream not found"@,
            *self == StreamError::InvalidTopUpAmount ==> text@ == "amount must be positive"@,
            *self == StreamError::InvalidNewRate ==> text@ == "new rate must be positive"@,
            *self == StreamError::NegativeDeposit ==> text@ == "additional deposit must be non-negative"@,
            *self == StreamError::Overflow ==> text@ == "overflow"@,
    {
        match self {
            StreamError::InvalidAmountOrRate => "amount and rate must be positive",
            StreamError::StreamAlreadyExists => "stream already exists",
            StreamError::StreamNotFound => "stream not found",
            StreamError::InvalidTopUpAmount => "amount must be positive",
            StreamError::InvalidNewRate => "new rate must be positive",
            StreamError::NegativeDeposit => "additional deposit must be non-negative",
            StreamError::Overflow => "overflow",
        }
    }
}

/// The view of a call's result.
pub open spec fn outcome<A>(r: Result<Plan<A>, StreamError>) -> Result<PlanView<A>, StreamError> {
    match r {
        Ok(p) => Ok(p@),
        Err(e) => Err(e),
    }
}

/// What `t` adds to the holdings of `p` (negative when `p` pays).
pub open spec fn flow(t: Transfer, p: Party) -> int {
    (if t.to == p { t.amount as int } else { 0 }) - (if t.from == p { t.amount as int } else { 0 })
}

/// What the transfers `ts` add, all together, to the holdings of `p`.
pub open spec fn net_flow(ts: Seq<Transfer>, p: Party) -> int
    decreases ts.len(),
{
    if ts.len() == 0 {
        0
    } else {
        net_flow(ts.drop_last(), p) + flow(ts.last(), p)
    }
}

/// The balance recorded for the stream once `storage` is applied, from a
/// recorded balance `before` (0 where there is no stream).
pub open spec fn recorded_after<A>(before: int, storage: StoredStream<A>) -> int {
    match storage {
        StoredStream::Unchanged => before,
        StoredStream::Save(s) => s.balance as int,
        StoredStream::Remove => 0,
    }
}

/// Every transfer moves a positive amount between two distinct parties.
pub open spec fn transfers_positive(ts: Seq<Transfer>) -> bool {
    forall|i: int| 0 <= i < ts.len() ==> #[trigger] ts[i].amount > 0 && ts[i].from != ts[i].to
}

/// `net_flow` over a concatenation.
pub proof fn lemma_net_flow_append(a: Seq<Transfer>, b: Seq<Transfer>, p: Party)
    ensures
        net_flow(a + b, p) == net_flow(a, p) + net_flow(b, p),
    decreases b.len(),
{
    if b.len() == 0 {
        assert(a + b =~= a);
    } else {
        lemma_net_flow_append(a, b.drop_last(), p);
        assert((a + b).drop_last() =~= a + b.drop_last());
        assert((a + b).last() == b.last());
    }
}

/// `net_flow` of a single transfer.
pub proof fn lemma_net_flow_single(t: Transfer, p: Party)
    ensures
        net_flow(seq![t], p) == flow(t, p),
{
    assert(seq![t].drop_last() =~= Seq::<Transfer>::empty());
    assert(net_flow(Seq::<Transfer>::empty(), p) == 0);
}

} // verus!
