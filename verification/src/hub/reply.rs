//! What the hub answers to a request, the commands it asks the chain to
//! carry out, and the carrying out of them.

use vstd::prelude::*;

use crate::amount::Amount;
use crate::hub::referral::Code;
use crate::id::Id;
use crate::FallibleApi;

verus! {

/// Something the hub asks the chain to do. The hub never does it itself.
#[derive(Debug, Clone, PartialEq)]
pub enum Command {
    /// Create a rewards pot for the application.
    CreateRewardsPot(Id),
    /// Make the account the one that receives the application's rewards.
    SetRewardsRecipient(Id),
    /// Make the account the one that administers the application's rewards.
    SetRewardsAdmin(Id),
    /// Set the fee that the application charges.
    SetDappFee { dapp: Id, amount: Amount },
    /// Pay `amount` out of `pot` to `receiver`.
    RedistributeRewards { amount: Amount, pot: Id, receiver: Id },
    /// Move what the pot has accrued into what it can spend.
    WithdrawPending(Id),
}

/// A command as mathematics.
pub enum Effect {
    CreateRewardsPot(Seq<char>),
    SetRewardsRecipient(Seq<char>),
    SetRewardsAdmin(Seq<char>),
    SetDappFee { dapp: Seq<char>, amount: u128 },
    RedistributeRewards { amount: u128, pot: Seq<char>, receiver: Seq<char> },
    WithdrawPending(Seq<char>),
}

impl View for Command {
    type V = Effect;

    open spec fn view(&self) -> Effect {
        match self {
            Command::CreateRewardsPot(dapp) => Effect::CreateRewardsPot(dapp@),
            Command::SetRewardsRecipient(id) => Effect::SetRewardsRecipient(id@),
            Command::SetRewardsAdmin(id) => Effect::SetRewardsAdmin(id@),
            Command::SetDappFee { dapp, amount } => Effect::SetDappFee {
                dapp: dapp@,
                amount: amount@,
            },
            Command::RedistributeRewards { amount, pot, receiver } => Effect::RedistributeRewards {
                amount: amount@,
                pot: pot@,
                receiver: receiver@,
            },
            Command::WithdrawPending(pot) => Effect::WithdrawPending(pot@),
        }
    }
}

impl DeepView for Command {
    type V = Effect;

    open spec fn deep_view(&self) -> Effect {
        self@
    }
}

/// What the hub answers to a request.
#[derive(Debug, Clone, PartialEq)]
pub enum Reply {
    /// The ledger has changed and nothing is left to do.
    Empty,
    /// The referral code to hand to the sender.
    ReferralCode(Code),
    /// One command to carry out.
    Cmd(Command),
    /// Several commands, to carry out in this order.
    MultiCmd(Vec<Command>),
}

/// A reply as mathematics.
pub enum Answer {
    Empty,
    ReferralCode(u64),
    Cmd(Effect),
    MultiCmd(Seq<Effect>),
}

impl View for Reply {
    type V = Answer;

    open spec fn view(&self) -> Answer {
        match self {
            Reply::Empty => Answer::Empty,
            Reply::ReferralCode(code) => Answer::ReferralCode(code@),
            Reply::Cmd(cmd) => Answer::Cmd(cmd@),
            Reply::MultiCmd(cmds) => Answer::MultiCmd(cmds.deep_view()),
        }
    }
}

impl DeepView for Reply {
    type V = Answer;

    open spec fn deep_view(&self) -> Answer {
        self@
    }
}

impl Command {
    /// A second command that asks for the same.
    pub fn duplicate(&self) -> (other: Command)
        ensures
            other@ == self@,
    {
        match self {
            Command::CreateRewardsPot(dapp) => Command::CreateRewardsPot(dapp.duplicate()),
            Command::SetRewardsRecipient(id) => Command::SetRewardsRecipient(id.duplicate()),
            Command::SetRewardsAdmin(id) => Command::SetRewardsAdmin(id.duplicate()),
            Command::SetDappFee { dapp, amount } => Command::SetDappFee {
                dapp: dapp.duplicate(),
                amount: *amount,
            },
            Command::RedistributeRewards { amount, pot, receiver } => Command::RedistributeRewards {
                amount: *amount,
                pot: pot.duplicate(),
                receiver: receiver.duplicate(),
            },
            Command::WithdrawPending(pot) => Command::WithdrawPending(pot.duplicate()),
        }
    }
}

/// What the contracts of one who carries replies out are stated over: a
/// record of what it has done.
pub trait Outbox: FallibleApi + Sized {
    /// The commands carried out so far, in their order.
    open spec fn carried_out(&self) -> Seq<Effect> {
        arbitrary()
    }

    /// The referral codes put into the response so far.
    open spec fn codes(&self) -> Seq<u64> {
        arbitrary()
    }

    /// Whether every command is carried out when it is asked for. One who
    /// does not say is not.
    open spec fn dependable(&self) -> bool {
        false
    }
}

/// What carries a reply out: it does on the chain what the hub's commands
/// ask for, and builds the response that goes back to the sender.
pub trait Handle: Outbox {
    type Response;

    /// The response as it would be given now.
    open spec fn response(&self) -> Self::Response {
        arbitrary()
    }

    /// Gives the response.
    fn into_response(self) -> (response: Self::Response)
        ensures
            response == self.response(),
    ;

    /// Puts a referral code into the response.
    fn add_referral_code(&mut self, referral_code: Code) -> (r: Result<(), Self::Error>)
        ensures
            handled(*old(self), *final(self), r, Answer::ReferralCode(referral_code@)),
    ;

    /// Creates a rewards pot for `dapp`.
    fn create_rewards_pot(&mut self, dapp: Id) -> (r: Result<(), Self::Error>)
        ensures
            handled(*old(self), *final(self), r, Answer::Cmd(Effect::CreateRewardsPot(dapp@))),
    ;

    /// Makes `recipient` the one that receives the rewards.
    fn set_rewards_recipient(&mut self, recipient: Id) -> (r: Result<(), Self::Error>)
        ensures
            handled(
                *old(self),
                *final(self),
                r,
                Answer::Cmd(Effect::SetRewardsRecipient(recipient@)),
            ),
    ;

    /// Makes `admin` the one that administers the rewards.
    fn set_rewards_admin(&mut self, admin: Id) -> (r: Result<(), Self::Error>)
        ensures
            handled(*old(self), *final(self), r, Answer::Cmd(Effect::SetRewardsAdmin(admin@))),
    ;

    /// Sets the fee of `dapp`.
    fn set_dapp_fee(&mut self, dapp: Id, amount: Amount) -> (r: Result<(), Self::Error>)
        ensures
            handled(
                *old(self),
                *final(self),
                r,
                Answer::Cmd(Effect::SetDappFee { dapp: dapp@, amount: amount@ }),
            ),
    ;

    /// Flushes what `pot` has accrued.
    fn withdraw_rewards(&mut self, pot: Id) -> (r: Result<(), Self::Error>)
        ensures
            handled(*old(self), *final(self), r, Answer::Cmd(Effect::WithdrawPending(pot@))),
    ;

    /// Pays `amount` out of `pot` to `receiver`.
    fn distribute_rewards(&mut self, pot: Id, amount: Amount, receiver: Id) -> (r: Result<
        (),
        Self::Error,
    >)
        ensures
            handled(
                *old(self),
                *final(self),
                r,
                Answer::Cmd(
                    Effect::RedistributeRewards {
                        amount: amount@,
                        pot: pot@,
                        receiver: receiver@,
                    },
                ),
            ),
    ;
}

/// The commands that a reply asks for, in their order.
pub open spec fn commands_of(reply: Answer) -> Seq<Effect> {
    match reply {
        Answer::Cmd(effect) => seq![effect],
        Answer::MultiCmd(effects) => effects,
        _ => Seq::empty(),
    }
}

/// The referral codes that a reply hands to the sender.
pub open spec fn codes_of(reply: Answer) -> Seq<u64> {
    match reply {
        Answer::ReferralCode(code) => seq![code],
        _ => Seq::empty(),
    }
}

/// What is asked of one who carries `reply` out: where it reports success,
/// all that the reply asks for was done, in the reply's order and after
/// what was done before, and nothing else; and one who is dependable
/// succeeds, and stays dependable.
pub open spec fn handled<H: Outbox>(
    before: H,
    after: H,
    r: Result<(), H::Error>,
    reply: Answer,
) -> bool {
    &&& after.dependable() == before.dependable()
    &&& before.dependable() ==> r is Ok
    &&& r is Ok ==> after.carried_out() == before.carried_out() + commands_of(reply)
    &&& r is Ok ==> after.codes() == before.codes() + codes_of(reply)
}

/// Carries one command out.
pub fn handle_cmd<Api>(api: &mut Api, cmd: Command) -> (r: Result<(), Api::Error>) where
    Api: Handle,

    ensures
        handled(*old(api), *final(api), r, Answer::Cmd(cmd@)),
{
    match cmd {
        Command::CreateRewardsPot(dapp) => api.create_rewards_pot(dapp),
        Command::SetRewardsRecipient(recipient) => api.set_rewards_recipient(recipient),
        Command::SetRewardsAdmin(admin) => api.set_rewards_admin(admin),
        Command::SetDappFee { dapp, amount } => api.set_dapp_fee(dapp, amount),
        Command::RedistributeRewards { amount, pot, receiver } => api.distribute_rewards(
            pot,
            amount,
            receiver,
        ),
        Command::WithdrawPending(pot) => api.withdraw_rewards(pot),
    }
}

/// Carries a reply out and gives the response: the response of one who
/// has done what `api` had done, then all that the reply asks for, in the
/// reply's order. The first command that fails ends it.
pub fn handle<Api>(api: Api, reply: Reply) -> (r: Result<Api::Response, Api::Error>) where
    Api: Handle,

    ensures
        api.dependable() ==> r is Ok,
        r matches Ok(response) ==> exists|done: Api|
            {
                &&& handled(api, done, Ok::<(), Api::Error>(()), reply@)
                &&& response == #[trigger] done.response()
            },
{
    let mut doer = api;
    match reply {
        Reply::Empty => {
            assert(doer.carried_out() + commands_of(reply@) =~= doer.carried_out());
            assert(doer.codes() + codes_of(reply@) =~= doer.codes());
        },
        Reply::ReferralCode(code) => {
            match doer.add_referral_code(code) {
                Ok(_) => {},
                Err(e) => {
                    return Err(e);
                },
            }
        },
        Reply::Cmd(cmd) => {
            match handle_cmd(&mut doer, cmd) {
                Ok(_) => {},
                Err(e) => {
                    return Err(e);
                },
            }
        },
        Reply::MultiCmd(cmds) => {
            let ghost all = cmds.deep_view();
            let mut at: usize = 0;
            assert(all.take(0) =~= Seq::<Effect>::empty());
            assert(api.carried_out() + all.take(0) =~= api.carried_out());
            while at < cmds.len()
                invariant
                    at <= cmds.len(),
                    all == cmds.deep_view(),
                    doer.dependable() == api.dependable(),
                    doer.carried_out() == api.carried_out() + all.take(at as int),
                    doer.codes() == api.codes(),
                decreases cmds.len() - at,
            {
                let cmd = cmds[at].duplicate();
                assert(cmd@ == all[at as int]);
                match handle_cmd(&mut doer, cmd) {
                    Ok(_) => {},
                    Err(e) => {
                        return Err(e);
                    },
                }
                assert(all.take(at as int + 1) =~= all.take(at as int).push(all[at as int]));
                assert((api.carried_out() + all.take(at as int)) + seq![all[at as int]]
                    =~= api.carried_out() + all.take(at as int + 1));
                at += 1;
            }
            assert(all.take(at as int) =~= all);
            assert(doer.codes() + codes_of(reply@) =~= doer.codes());
        },
    }
    let ghost done = doer;
    let response = doer.into_response();
    assert(handled(api, done, Ok::<(), Api::Error>(()), reply@));
    assert(response == done.response());
    Ok(response)
}

} // verus!
