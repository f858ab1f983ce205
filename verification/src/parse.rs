//! From the messages of the wire to the requests of the hub and the pot:
//! nothing reaches them that is not valid.

use vstd::prelude::*;

use crate::amount::Amount;
use crate::cw::{
    Address, AllDappsResponse, DappResponse, ExecuteMsg, InstantiateResponse, PotExecuteMsg,
    QueryMsg, QueryResponse, ReferralCodeResponse, TotalDappsResponse,
};
use crate::hub::common::{valid_percent, NonZeroPercent};
use crate::hub::dapp::Metadata;
use crate::hub::msg::{Collection, Configure, Kind, Msg, Registration};
use crate::hub::query::{DappInfo, DappSummary, Request, Response, Told};
use crate::hub::referral::Code;
use crate::id::Id;
use crate::rewards_pot;

verus! {

/// Why a message is not taken.
#[derive(Debug, Clone, PartialEq)]
pub enum Error {
    /// The chain refused an address, with these words.
    InvalidAddress(String),
    /// A percentage is not from 1 to 100.
    InvalidPercent,
    /// A fee is zero.
    InvalidFee,
    /// An amount is zero.
    InvalidAmount,
    /// The report of a new pot does not say what it was created for.
    ExpectedReplyData,
}

/// Why a message is not taken, as mathematics.
pub enum Refusal {
    InvalidAddress(Seq<char>),
    InvalidPercent,
    InvalidFee,
    InvalidAmount,
    ExpectedReplyData,
}

impl View for Error {
    type V = Refusal;

    open spec fn view(&self) -> Refusal {
        match self {
            Error::InvalidAddress(words) => Refusal::InvalidAddress(words@),
            Error::InvalidPercent => Refusal::InvalidPercent,
            Error::InvalidFee => Refusal::InvalidFee,
            Error::InvalidAmount => Refusal::InvalidAmount,
            Error::ExpectedReplyData => Refusal::ExpectedReplyData,
        }
    }
}

impl Error {
    /// The words for this error.
    pub fn message(&self) -> (words: String)
        ensures
            self matches Error::InvalidAddress(why) ==> words@ == "invalid address - "@ + why@,
            self is InvalidPercent ==> words@
                == "invalid percent - valid value is any integer between 1 & 100"@,
            self is InvalidFee ==> words@ == "invalid fee - expected non-zero value"@,
            self is InvalidAmount ==> words@ == "invalid amount - expected non-zero value"@,
            self is ExpectedReplyData ==> words@ == "invalid reply - expected data"@,
    {
        match self {
            Error::InvalidAddress(why) => "invalid address - ".to_owned().concat(why.as_str()),
            Error::InvalidPercent => "invalid percent - valid value is any integer between 1 & 100".to_owned(),
            Error::InvalidFee => "invalid fee - expected non-zero value".to_owned(),
            Error::InvalidAmount => "invalid amount - expected non-zero value".to_owned(),
            Error::ExpectedReplyData => "invalid reply - expected data".to_owned(),
        }
    }
}

/// What a request to the hub asks for, as mathematics.
#[allow(inconsistent_fields)]
pub enum Ask {
    Referrer,
    Dapp { name: Seq<char>, percent: u8, collector: Seq<char> },
    RewardsPot { dapp: Seq<char>, rewards_pot: Seq<char> },
    DeregisterDapp { dapp: Seq<char>, rewards_admin: Seq<char>, rewards_recipient: Seq<char> },
    Referral { code: u64 },
    CollectReferrer { dapp: Seq<char>, code: u64 },
    CollectDapp { dapp: Seq<char> },
    TransferOwnership { code: u64, owner: Seq<char> },
    Metadata {
        dapp: Seq<char>,
        percent: Option<u8>,
        collector: Option<Seq<char>>,
        repo_url: Option<Seq<char>>,
    },
    DappFee { dapp: Seq<char>, fee: u128 },
}

/// What `kind` asks for, as mathematics.
pub open spec fn ask_of(kind: Kind) -> Ask {
    match kind {
        Kind::Register(Registration::Referrer) => Ask::Referrer,
        Kind::Register(Registration::Dapp { name, percent, collector }) => Ask::Dapp {
            name: name@,
            percent: percent@,
            collector: collector@,
        },
        Kind::Register(Registration::RewardsPot { dapp, rewards_pot }) => Ask::RewardsPot {
            dapp: dapp@,
            rewards_pot: rewards_pot@,
        },
        Kind::Register(
            Registration::DeregisterDapp { dapp, rewards_admin, rewards_recipient },
        ) => Ask::DeregisterDapp {
            dapp: dapp@,
            rewards_admin: rewards_admin@,
            rewards_recipient: rewards_recipient@,
        },
        Kind::Referral { code } => Ask::Referral { code: code@ },
        Kind::Collect(Collection::Referrer { dapp, code }) => Ask::CollectReferrer {
            dapp: dapp@,
            code: code@,
        },
        Kind::Collect(Collection::Dapp { dapp }) => Ask::CollectDapp { dapp: dapp@ },
        Kind::Config(Configure::TransferReferralCodeOwnership { code, owner }) => Ask::TransferOwnership {
            code: code@,
            owner: owner@,
        },
        Kind::Config(Configure::DappMetadata { dapp, metadata }) => Ask::Metadata {
            dapp: dapp@,
            percent: match metadata.percent {
                Some(percent) => Some(percent@),
                None => None,
            },
            collector: match metadata.collector {
                Some(collector) => Some(collector@),
                None => None,
            },
            repo_url: match metadata.repo_url {
                Some(repo_url) => Some(repo_url@),
                None => None,
            },
        },
        Kind::Config(Configure::DappFee { dapp, fee }) => Ask::DappFee { dapp: dapp@, fee: fee@ },
    }
}

/// The identifier behind an address, or the refusal of it.
pub open spec fn address_ruled(address: Address) -> Result<Seq<char>, Refusal> {
    match address {
        Address::Valid(id) => Ok(id@),
        Address::Invalid(why) => Err(Refusal::InvalidAddress(why@)),
    }
}

/// The identifier behind an address that the chain accepted.
pub fn address(checked: Address) -> (r: Result<Id, Error>)
    ensures
        r matches Ok(id) ==> address_ruled(checked) == Ok::<Seq<char>, Refusal>(id@),
        r matches Err(e) ==> address_ruled(checked) == Err::<Seq<char>, Refusal>(e@),
{
    match checked {
        Address::Valid(id) => Ok(id),
        Address::Invalid(why) => Err(Error::InvalidAddress(why)),
    }
}

/// What a message to the hub asks for, if every part of it is valid;
/// else the refusal of the first part that is not, in the order in which
/// the message lists them.
pub open spec fn hub_exec_ruled(msg: ExecuteMsg) -> Result<Ask, Refusal> {
    match msg {
        ExecuteMsg::RegisterReferrer => Ok(Ask::Referrer),
        ExecuteMsg::ActivateDapp { name, percent, collector } => if !valid_percent(percent) {
            Err(Refusal::InvalidPercent)
        } else {
            match address_ruled(collector) {
                Err(e) => Err(e),
                Ok(collector) => Ok(Ask::Dapp { name: name@, percent, collector }),
            }
        },
        ExecuteMsg::DeactivateDapp { dapp, rewards_admin, rewards_recipient } => match (
            address_ruled(dapp),
            address_ruled(rewards_admin),
            address_ruled(rewards_recipient),
        ) {
            (Err(e), _, _) => Err(e),
            (_, Err(e), _) => Err(e),
            (_, _, Err(e)) => Err(e),
            (Ok(dapp), Ok(rewards_admin), Ok(rewards_recipient)) => Ok(
                Ask::DeregisterDapp { dapp, rewards_admin, rewards_recipient },
            ),
        },
        ExecuteMsg::SetDappFee { dapp, fee } => match address_ruled(dapp) {
            Err(e) => Err(e),
            Ok(dapp) => if fee == 0 {
                Err(Refusal::InvalidFee)
            } else {
                Ok(Ask::DappFee { dapp, fee })
            },
        },
        ExecuteMsg::RecordReferral { code } => Ok(Ask::Referral { code }),
        ExecuteMsg::CollectReferrer { code, dapp } => match address_ruled(dapp) {
            Err(e) => Err(e),
            Ok(dapp) => Ok(Ask::CollectReferrer { dapp, code }),
        },
        ExecuteMsg::CollectDapp { dapp } => match address_ruled(dapp) {
            Err(e) => Err(e),
            Ok(dapp) => Ok(Ask::CollectDapp { dapp }),
        },
        ExecuteMsg::TransferOwnership { code, owner } => match address_ruled(owner) {
            Err(e) => Err(e),
            Ok(owner) => Ok(Ask::TransferOwnership { code, owner }),
        },
        ExecuteMsg::ConfigureDapp { dapp, percent, collector, repo_url } => match address_ruled(
            dapp,
        ) {
            Err(e) => Err(e),
            Ok(dapp) => if percent matches Some(p) && !valid_percent(p) {
                Err(Refusal::InvalidPercent)
            } else {
                match collector {
                    Some(Address::Invalid(why)) => Err(Refusal::InvalidAddress(why@)),
                    _ => Ok(
                        Ask::Metadata {
                            dapp,
                            percent,
                            collector: match collector {
                                Some(Address::Valid(id)) => Some(id@),
                                _ => None,
                            },
                            repo_url: match repo_url {
                                Some(repo_url) => Some(repo_url@),
                                None => None,
                            },
                        },
                    ),
                }
            },
        },
    }
}

/// Turns a message that a user sent into a request to the hub.
///
/// Refused with `InvalidPercent` where a percentage is not from 1 to 100,
/// with `InvalidFee` where a fee is zero, and with `InvalidAddress` where
/// the chain refused an address.
pub fn parse_hub_exec(sender: Id, cw_msg: ExecuteMsg) -> (r: Result<Msg, Error>)
    ensures
        r matches Ok(msg) ==> msg.sender@ == sender@ && hub_exec_ruled(cw_msg) == Ok::<
            Ask,
            Refusal,
        >(ask_of(msg.kind)),
        r matches Err(e) ==> hub_exec_ruled(cw_msg) == Err::<Ask, Refusal>(e@),
{
    let kind = match cw_msg {
        ExecuteMsg::RegisterReferrer => Kind::Register(Registration::Referrer),
        ExecuteMsg::ActivateDapp { name, percent, collector } => {
            let percent = match NonZeroPercent::new(percent) {
                Some(percent) => percent,
                None => {
                    return Err(Error::InvalidPercent);
                },
            };
            Kind::Register(Registration::Dapp { name, percent, collector: address(collector)? })
        },
        ExecuteMsg::DeactivateDapp { dapp, rewards_admin, rewards_recipient } => {
            let dapp = address(dapp)?;
            let rewards_admin = address(rewards_admin)?;
            let rewards_recipient = address(rewards_recipient)?;
            Kind::Register(Registration::DeregisterDapp { dapp, rewards_admin, rewards_recipient })
        },
        ExecuteMsg::SetDappFee { dapp, fee } => {
            let dapp = address(dapp)?;
            let fee = match Amount::new(fee) {
                Some(fee) => fee,
                None => {
                    return Err(Error::InvalidFee);
                },
            };
            Kind::Config(Configure::DappFee { dapp, fee })
        },
        ExecuteMsg::RecordReferral { code } => Kind::Referral { code: Code::new(code) },
        ExecuteMsg::CollectReferrer { code, dapp } => Kind::Collect(
            Collection::Referrer { dapp: address(dapp)?, code: Code::new(code) },
        ),
        ExecuteMsg::CollectDapp { dapp } => Kind::Collect(
            Collection::Dapp { dapp: address(dapp)? },
        ),
        ExecuteMsg::TransferOwnership { code, owner } => Kind::Config(
            Configure::TransferReferralCodeOwnership {
                code: Code::new(code),
                owner: address(owner)?,
            },
        ),
        ExecuteMsg::ConfigureDapp { dapp, percent, collector, repo_url } => {
            let dapp = address(dapp)?;
            let percent = match percent {
                Some(percent) => match NonZeroPercent::new(percent) {
                    Some(percent) => Some(percent),
                    None => {
                        return Err(Error::InvalidPercent);
                    },
                },
                None => None,
            };
            let collector = match collector {
                Some(collector) => Some(address(collector)?),
                None => None,
            };
            Kind::Config(
                Configure::DappMetadata { dapp, metadata: Metadata { percent, collector, repo_url } },
            )
        },
    };
    Ok(Msg { sender, kind })
}

/// What a question to the hub asks, as mathematics.
pub enum Asked {
    TotalDappCount,
    Dapp(Seq<char>),
    AllDapps { start: Option<u64>, limit: Option<u64> },
    ReferralCode(Seq<char>),
}

/// What `request` asks, as mathematics.
pub open spec fn asked_of(request: Request) -> Asked {
    match request {
        Request::TotalDappCount => Asked::TotalDappCount,
        Request::Dapp(id) => Asked::Dapp(id@),
        Request::AllDapps { start, limit } => Asked::AllDapps { start, limit },
        Request::ReferralCode(id) => Asked::ReferralCode(id@),
    }
}

/// What a question to the hub asks, if its address is valid.
pub open spec fn hub_query_ruled(msg: QueryMsg) -> Result<Asked, Refusal> {
    match msg {
        QueryMsg::TotalDapps => Ok(Asked::TotalDappCount),
        QueryMsg::Dapp { dapp } => match address_ruled(dapp) {
            Err(e) => Err(e),
            Ok(dapp) => Ok(Asked::Dapp(dapp)),
        },
        QueryMsg::AllDapps { start, limit } => Ok(Asked::AllDapps { start, limit }),
        QueryMsg::RefferalCode { referrer } => match address_ruled(referrer) {
            Err(e) => Err(e),
            Ok(referrer) => Ok(Asked::ReferralCode(referrer)),
        },
    }
}

/// Turns a question that a user sent into a question to the hub.
///
/// Refused with `InvalidAddress` where the chain refused the address.
pub fn parse_hub_query(cw_msg: QueryMsg) -> (r: Result<Request, Error>)
    ensures
        r matches Ok(request) ==> hub_query_ruled(cw_msg) == Ok::<Asked, Refusal>(
            asked_of(request),
        ),
        r matches Err(e) ==> hub_query_ruled(cw_msg) == Err::<Asked, Refusal>(e@),
{
    let request = match cw_msg {
        QueryMsg::TotalDapps => Request::TotalDappCount,
        QueryMsg::Dapp { dapp } => Request::Dapp(address(dapp)?),
        QueryMsg::AllDapps { start, limit } => Request::AllDapps { start, limit },
        QueryMsg::RefferalCode { referrer } => Request::ReferralCode(address(referrer)?),
    };
    Ok(request)
}

/// The characters of an optional string.
pub open spec fn chars(words: Option<String>) -> Option<Seq<char>> {
    match words {
        Some(words) => Some(words@),
        None => None,
    }
}

impl DeepView for DappResponse {
    type V = DappSummary;

    open spec fn deep_view(&self) -> DappSummary {
        DappSummary {
            id: self.address@,
            active: self.active,
            name: chars(self.name),
            percent: self.percent,
            repo_url: chars(self.repo_url),
            fee: self.fee,
            total_invocations: self.total_invocations,
            discrete_referrers: self.discrete_referrers,
            total_contributions: self.total_contributions,
            total_rewards: self.total_rewards,
        }
    }
}

impl DeepView for QueryResponse {
    type V = Told;

    open spec fn deep_view(&self) -> Told {
        match self {
            QueryResponse::TotalDapps(total) => Told::TotalDappCount(total.total),
            QueryResponse::Dapp(dapp) => Told::Dapp(dapp.deep_view()),
            QueryResponse::AllDapps(all) => Told::AllDapps(all.dapps.deep_view()),
            QueryResponse::ReferralCode(code) => Told::ReferralCode(
                match code {
                    Some(code) => Some(code.code),
                    None => None,
                },
            ),
        }
    }
}

/// All that is known of one application, in plain values.
fn convert_dapp(info: DappInfo) -> (response: DappResponse)
    ensures
        response.deep_view() == info.deep_view(),
{
    DappResponse {
        address: info.id.into_string(),
        active: info.active,
        name: info.name,
        percent: info.percent.to_u8(),
        repo_url: info.repo_url,
        fee: match info.fee {
            Some(fee) => Some(fee.get()),
            None => None,
        },
        total_invocations: info.total_invocations,
        discrete_referrers: info.discrete_referrers,
        total_contributions: info.total_contributions,
        total_rewards: info.total_rewards,
    }
}

/// Turns the hub's answer to a question into plain values. It tells
/// what the answer tells.
pub fn convert_hub_query_response(response: Response) -> (converted: QueryResponse)
    ensures
        converted.deep_view() == response.deep_view(),
        response is TotalDappCount <==> converted is TotalDapps,
        response is Dapp <==> converted is Dapp,
        response is AllDapps <==> converted is AllDapps,
{
    match response {
        Response::TotalDappCount(total) => QueryResponse::TotalDapps(TotalDappsResponse { total }),
        Response::Dapp(dapp) => QueryResponse::Dapp(convert_dapp(dapp)),
        Response::AllDapps(dapps) => {
            let ghost told = dapps.deep_view();
            let mut dapps = dapps;
            let mut converted: Vec<DappResponse> = Vec::new();
            while dapps.len() > 0
                invariant
                    converted.len() + dapps.len() == told.len(),
                    forall|i: int|
                        0 <= i < dapps.len() ==> (#[trigger] dapps[i]).deep_view()
                            == told[converted.len() + i],
                    forall|i: int|
                        0 <= i < converted.len() ==> (#[trigger] converted[i]).deep_view()
                            == told[i],
                decreases dapps.len(),
            {
                let info = dapps.remove(0);
                converted.push(convert_dapp(info));
            }
            assert(converted.deep_view() =~= told);
            QueryResponse::AllDapps(AllDappsResponse { dapps: converted })
        },
        Response::ReferralCode(code) => QueryResponse::ReferralCode(
            match code {
                Some(code) => Some(ReferralCodeResponse { code: code.to_u64() }),
                None => None,
            },
        ),
    }
}

/// Turns the chain's report that a rewards pot was created into the
/// request that tells the hub: the pot at `contract_address` is the one of
/// the application that the pot says it was created for, and the pot
/// itself is the sender.
///
/// Refused with `ExpectedReplyData` where the pot has said nothing.
pub fn parse_init_pot_reply(contract_address: String, response: Option<InstantiateResponse>) -> (r:
    Result<Msg, Error>)
    ensures
        response is None ==> r matches Err(Error::ExpectedReplyData),
        response matches Some(said) ==> r matches Ok(msg) && msg.sender@ == contract_address@
            && ask_of(msg.kind) == (Ask::RewardsPot {
            dapp: said.dapp@,
            rewards_pot: contract_address@,
        }),
{
    let said = match response {
        Some(said) => said,
        None => {
            return Err(Error::ExpectedReplyData);
        },
    };
    let rewards_pot = Id::from_string(contract_address);
    Ok(
        Msg {
            sender: rewards_pot.duplicate(),
            kind: Kind::Register(
                Registration::RewardsPot { dapp: Id::from_string(said.dapp), rewards_pot },
            ),
        },
    )
}

/// What a request to a rewards pot asks for, as mathematics.
pub enum PotAsk {
    WithdrawPending,
    Distribute { recipient: Seq<char>, amount: u128 },
}

/// What `kind` asks of a rewards pot, as mathematics.
pub open spec fn pot_ask_of(kind: rewards_pot::Kind) -> PotAsk {
    match kind {
        rewards_pot::Kind::WithdrawPending => PotAsk::WithdrawPending,
        rewards_pot::Kind::Distribute { recipient, amount } => PotAsk::Distribute {
            recipient: recipient@,
            amount: amount@,
        },
    }
}

/// What a message to a rewards pot asks for, if every part of it is
/// valid.
pub open spec fn pot_exec_ruled(msg: PotExecuteMsg) -> Result<PotAsk, Refusal> {
    match msg {
        PotExecuteMsg::WithdrawRewards => Ok(PotAsk::WithdrawPending),
        PotExecuteMsg::DistributeRewards { recipient, amount } => match address_ruled(recipient) {
            Err(e) => Err(e),
            Ok(recipient) => if amount == 0 {
                Err(Refusal::InvalidAmount)
            } else {
                Ok(PotAsk::Distribute { recipient, amount })
            },
        },
    }
}

/// Turns a message that a user sent into a request to a rewards pot.
///
/// Refused with `InvalidAddress` where the chain refused the recipient,
/// and with `InvalidAmount` where the amount is zero.
pub fn parse_pot_exec(sender: Id, cw_msg: PotExecuteMsg) -> (r: Result<rewards_pot::Msg, Error>)
    ensures
        r matches Ok(msg) ==> msg.sender@ == sender@ && pot_exec_ruled(cw_msg) == Ok::<
            PotAsk,
            Refusal,
        >(pot_ask_of(msg.kind)),
        r matches Err(e) ==> pot_exec_ruled(cw_msg) == Err::<PotAsk, Refusal>(e@),
{
    let kind = match cw_msg {
        PotExecuteMsg::WithdrawRewards => rewards_pot::Kind::WithdrawPending,
        PotExecuteMsg::DistributeRewards { recipient, amount } => {
            let recipient = address(recipient)?;
            let amount = match Amount::new(amount) {
                Some(amount) => amount,
                None => {
                    return Err(Error::InvalidAmount);
                },
            };
            rewards_pot::Kind::Distribute { recipient, amount }
        },
    };
    Ok(rewards_pot::Msg { sender, kind })
}

} // verus!
