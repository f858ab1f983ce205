//! The messages as they come over the wire and go back, with plain
//! numbers and strings, before the hub has looked at them.

use vstd::prelude::*;

use crate::id::Id;

verus! {

/// An address as the chain's check of it has left it: accepted, and then
/// an identifier, or refused, with the chain's words for why.
#[derive(Debug, Clone, PartialEq)]
pub enum Address {
    Valid(Id),
    Invalid(String),
}

/// A request to the hub as it comes in.
#[derive(Debug, Clone, PartialEq)]
#[allow(inconsistent_fields)]
pub enum ExecuteMsg {
    /// Register as a referrer.
    RegisterReferrer,
    /// Register as an application.
    ActivateDapp { name: String, percent: u8, collector: Address },
    /// Take an application out.
    DeactivateDapp { dapp: Address, rewards_admin: Address, rewards_recipient: Address },
    /// Set an application's fee.
    SetDappFee { dapp: Address, fee: u128 },
    /// Record one use of a referral code.
    RecordReferral { code: u64 },
    /// Pay a referrer.
    CollectReferrer { code: u64, dapp: Address },
    /// Pay an application what is left to it.
    CollectDapp { dapp: Address },
    /// Hand a referral code to a new owner.
    TransferOwnership { code: u64, owner: Address },
    /// Change what an application says of itself.
    ConfigureDapp {
        dapp: Address,
        percent: Option<u8>,
        collector: Option<Address>,
        repo_url: Option<String>,
    },
}

/// A question to the hub as it comes in.
#[derive(Debug, Clone, PartialEq)]
pub enum QueryMsg {
    TotalDapps,
    Dapp { dapp: Address },
    AllDapps { start: Option<u64>, limit: Option<u64> },
    RefferalCode { referrer: Address },
}

/// The referral code that was issued.
#[derive(Debug, Clone, PartialEq)]
pub struct ReferralCodeResponse {
    pub code: u64,
}

/// How many applications were ever registered.
#[derive(Debug, Clone, PartialEq)]
pub struct TotalDappsResponse {
    pub total: u64,
}

/// All that is known of one application, in plain values.
#[derive(Debug, Clone, PartialEq)]
pub struct DappResponse {
    pub address: String,
    pub active: bool,
    pub name: Option<String>,
    pub percent: u8,
    pub repo_url: Option<String>,
    pub fee: Option<u128>,
    pub total_invocations: u64,
    pub discrete_referrers: u64,
    pub total_contributions: u128,
    pub total_rewards: u128,
}

/// The applications of one page.
#[derive(Debug, Clone, PartialEq)]
pub struct AllDappsResponse {
    pub dapps: Vec<DappResponse>,
}

/// The hub's answer to a question, in plain values.
#[derive(Debug, Clone, PartialEq)]
pub enum QueryResponse {
    TotalDapps(TotalDappsResponse),
    Dapp(DappResponse),
    AllDapps(AllDappsResponse),
    ReferralCode(Option<ReferralCodeResponse>),
}

/// What a rewards pot reports once it is created: the application it was
/// created for.
#[derive(Debug, Clone, PartialEq)]
pub struct InstantiateResponse {
    pub dapp: String,
}

/// A request to a rewards pot as it comes in.
#[derive(Debug, Clone, PartialEq)]
pub enum PotExecuteMsg {
    WithdrawRewards,
    DistributeRewards { recipient: Address, amount: u128 },
}

} // verus!
