//! Accounting core of a referral-rewards program.
//!
//! The hub keeps the registry of applications, the referral codes and what
//! each code has earned and collected; the rewards pot decides when accrued
//! value is flushed and paid out. Every operation is written against the
//! capabilities it needs, so that any backing store can serve it.

use vstd::prelude::*;

pub mod amount;
pub mod cw;
pub mod hub;
pub mod id;
pub mod mock;
pub mod parse;
pub mod rewards_pot;
pub mod storage;
pub mod table;

pub use amount::Amount;
pub use id::Id;

verus! {

/// The root of every capability: the error that the backing store or the
/// surrounding chain may answer with.
pub trait FallibleApi {
    type Error;
}

} // verus!
