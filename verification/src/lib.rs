//! Verified accounting for token subscription streams.
//!
//! A subscriber deposits tokens into a stream towards a creator; the
//! creator collects what has accrued at a fixed rate per second, never
//! more than the stream holds. Each operation of the contract is a
//! decision: from the stored stream (if any), the arguments of the call
//! and the ledger time, it yields a [`plan::Plan`] (the token transfers to
//! make, what becomes of the stored stream, and the event to publish) or
//! the reason the call is refused.
pub mod stream;
pub mod plan;
pub mod contract;
pub mod laws;

pub use stream::Stream;
pub use plan::{Party, Transfer, TierChanged, StoredStream, Plan, PlanView, StreamError};
pub use contract::SubStreamContract;
