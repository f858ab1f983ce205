//! The requests that the hub takes.

use vstd::prelude::*;
use vstd::std_specs::convert::FromSpecImpl;

use crate::amount::Amount;
use crate::hub::common::NonZeroPercent;
use crate::hub::dapp::Metadata;
use crate::hub::referral::Code;
use crate::id::Id;

verus! {

/// The requests that register something or take a registration back.
#[derive(Debug, Clone, PartialEq)]
#[allow(inconsistent_fields)]
pub enum Registration {
    /// The sender asks for a referral code.
    Referrer,
    /// The sender registers as an application.
    Dapp { name: String, percent: NonZeroPercent, collector: Id },
    /// The chain reports the rewards pot that was created for `dapp`.
    RewardsPot { dapp: Id, rewards_pot: Id },
    /// `dapp` stops taking referrals and hands its rewards over.
    DeregisterDapp { dapp: Id, rewards_admin: Id, rewards_recipient: Id },
}

/// The requests that pay out.
#[derive(Debug, Clone, PartialEq)]
#[allow(inconsistent_fields)]
pub enum Collection {
    /// What `code` has earned at `dapp`.
    Referrer { dapp: Id, code: Code },
    /// What is left to `dapp` itself.
    Dapp { dapp: Id },
}

/// The requests that change a setting.
#[derive(Debug, Clone, PartialEq)]
#[allow(inconsistent_fields)]
pub enum Configure {
    TransferReferralCodeOwnership { code: Code, owner: Id },
    DappMetadata { dapp: Id, metadata: Metadata },
    DappFee { dapp: Id, fee: Amount },
}

/// What a request asks for.
#[derive(Debug, Clone, PartialEq)]
pub enum Kind {
    Register(Registration),
    /// One use of `code` at the application that sends the request.
    Referral { code: Code },
    Collect(Collection),
    Config(Configure),
}

/// A request: who sends it and what it asks for.
#[derive(Debug, Clone, PartialEq)]
pub struct Msg {
    pub sender: Id,
    pub kind: Kind,
}

impl From<Configure> for Kind {
    fn from(v: Configure) -> (kind: Kind) {
        Kind::Config(v)
    }
}

impl FromSpecImpl<Configure> for Kind {
    open spec fn obeys_from_spec() -> bool {
        true
    }

    open spec fn from_spec(v: Configure) -> Kind {
        Kind::Config(v)
    }
}

impl From<Collection> for Kind {
    fn from(v: Collection) -> (kind: Kind) {
        Kind::Collect(v)
    }
}

impl FromSpecImpl<Collection> for Kind {
    open spec fn obeys_from_spec() -> bool {
        true
    }

    open spec fn from_spec(v: Collection) -> Kind {
        Kind::Collect(v)
    }
}

impl From<Registration> for Kind {
    fn from(v: Registration) -> (kind: Kind) {
        Kind::Register(v)
    }
}

impl FromSpecImpl<Registration> for Kind {
    open spec fn obeys_from_spec() -> bool {
        true
    }

    open spec fn from_spec(v: Registration) -> Kind {
        Kind::Register(v)
    }
}

} // verus!
