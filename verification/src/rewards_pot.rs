//! The rewards pot of one application: it decides when what has accrued
//! is flushed into what can be spent, and when it is paid out.

use vstd::prelude::*;
use vstd::std_specs::convert::FromSpecImpl;

pub mod tally;

pub use tally::Tally;

use crate::amount::Amount;
use crate::id::Id;
use crate::FallibleApi;

verus! {

/// Why the pot turned a request down.
#[derive(Debug)]
pub enum Error<Api> {
    /// The store or the chain failed.
    Api(Api),
    /// The sender does not own the pot.
    Unauthorized,
}

impl<Api> View for Error<Api> {
    type V = Error<()>;

    open spec fn view(&self) -> Error<()> {
        match self {
            Error::Api(_) => Error::Api(()),
            Error::Unauthorized => Error::Unauthorized,
        }
    }
}

impl<Api> From<Api> for Error<Api> {
    fn from(error: Api) -> (wrapped: Error<Api>) {
        Error::Api(error)
    }
}

impl<Api> FromSpecImpl<Api> for Error<Api> {
    open spec fn obeys_from_spec() -> bool {
        true
    }

    open spec fn from_spec(error: Api) -> Error<Api> {
        Error::Api(error)
    }
}

impl<Api> Error<Api> {
    /// The words for this error. An error of the store or the chain has
    /// none here: it brings its own.
    pub fn message(&self) -> (words: Option<String>)
        ensures
            words is None <==> self is Api,
            self is Unauthorized ==> words->0@ == "unauthorized"@,
    {
        match self {
            Error::Api(_) => None,
            Error::Unauthorized => Some("unauthorized".to_owned()),
        }
    }
}

/// What a request to the pot asks for.
#[derive(Debug, Clone, PartialEq)]
pub enum Kind {
    /// Flush what has accrued.
    WithdrawPending,
    /// Pay `amount` to `recipient`.
    Distribute { recipient: Id, amount: Amount },
}

/// A request to the pot: who sends it and what it asks for.
#[derive(Debug, Clone, PartialEq)]
pub struct Msg {
    pub sender: Id,
    pub kind: Kind,
}

/// Something the pot asks the chain to do.
#[derive(Debug, Clone, PartialEq)]
pub enum Command {
    /// Move what has accrued into what can be spent.
    WithdrawPending,
    /// Send `amount` to `recipient`.
    Send { recipient: Id, amount: Amount },
}

/// A command of the pot as mathematics.
pub enum Effect {
    WithdrawPending,
    Send { recipient: Seq<char>, amount: u128 },
}

impl View for Command {
    type V = Effect;

    open spec fn view(&self) -> Effect {
        match self {
            Command::WithdrawPending => Effect::WithdrawPending,
            Command::Send { recipient, amount } => Effect::Send {
                recipient: recipient@,
                amount: amount@,
            },
        }
    }
}

impl DeepView for Command {
    type V = Effect;

    open spec fn deep_view(&self) -> Effect {
        self@
    }
}

impl Command {
    /// A second command that asks for the same.
    pub fn duplicate(&self) -> (other: Command)
        ensures
            other@ == self@,
    {
        match self {
            Command::WithdrawPending => Command::WithdrawPending,
            Command::Send { recipient, amount } => Command::Send {
                recipient: recipient.duplicate(),
                amount: *amount,
            },
        }
    }
}

/// What the pot answers to a request.
#[derive(Debug, Clone, PartialEq)]
pub enum Reply {
    /// Nothing is to be done.
    Empty,
    /// Commands to carry out in this order.
    Commands(Vec<Command>),
}

/// The commands that a reply asks for, in their order.
pub open spec fn commands_of(reply: Reply) -> Seq<Effect> {
    match reply {
        Reply::Empty => Seq::empty(),
        Reply::Commands(commands) => commands.deep_view(),
    }
}

/// What the pot's rules are stated over: who owns the pot, and whether
/// value has accrued that was not flushed yet.
pub trait Pot: FallibleApi + Sized {
    /// The application that owns the pot.
    open spec fn owner(&self) -> Seq<char> {
        arbitrary()
    }

    /// Whether value has accrued that was not flushed yet.
    open spec fn uncollected(&self) -> bool {
        arbitrary()
    }

    /// Whether every question is answered. One who does not say is not
    /// held to answer.
    open spec fn reliable(&self) -> bool {
        false
    }
}

/// What the pot asks its surroundings.
pub trait Query: Pot {
    /// The application that owns the pot.
    fn owner_id(&self) -> (r: Result<Id, Self::Error>)
        ensures
            self.reliable() ==> r is Ok,
            r matches Ok(id) ==> id@ == self.owner(),
    ;

    /// Whether value has accrued that was not flushed yet.
    fn has_uncollected_rewards(&self) -> (r: Result<bool, Self::Error>)
        ensures
            self.reliable() ==> r is Ok,
            r matches Ok(pending) ==> pending == self.uncollected(),
    ;
}

/// How the call of an operation of the pot stands to what the rules say
/// of it: it gives `ruled` or fails with an error of its surroundings, and
/// where they are reliable it gives `ruled`. The pot is left as it was.
pub open spec fn follows<S: Pot, T: DeepView>(
    before: S,
    after: S,
    r: Result<T, Error<S::Error>>,
    ruled: Result<T::V, Error<()>>,
) -> bool {
    &&& after == before
    &&& match r {
        Ok(v) => ruled == Ok::<T::V, Error<()>>(v.deep_view()),
        Err(Error::Api(_)) => !before.reliable(),
        Err(e) => ruled == Err::<T::V, Error<()>>(e@),
    }
}

/// The answer of the surroundings, as the pot hands it on.
fn lift<T, E>(r: Result<T, E>) -> (lifted: Result<T, Error<E>>)
    ensures
        r matches Ok(v) ==> lifted == Ok::<T, Error<E>>(v),
        r matches Err(e) ==> lifted == Err::<T, Error<E>>(Error::Api(e)),
{
    match r {
        Ok(v) => Ok(v),
        Err(e) => Err(Error::Api(e)),
    }
}

/// What the rules make of a request to flush: the flush where value has
/// accrued, and nothing where none has.
pub open spec fn withdraw_pending_ruled(owner: Seq<char>, uncollected: bool, sender: Seq<char>) -> Result<
    Seq<Effect>,
    Error<()>,
> {
    if sender != owner {
        Err(Error::Unauthorized)
    } else if uncollected {
        Ok(seq![Effect::WithdrawPending])
    } else {
        Ok(Seq::empty())
    }
}

/// Asks for what has accrued to be flushed, if anything has.
///
/// Turned down with `Unauthorized` where the sender does not own the pot.
pub fn withdraw_pending<Api>(api: &mut Api, sender: &Id) -> (r: Result<
    Vec<Command>,
    Error<Api::Error>,
>) where Api: Query
    ensures
        follows(
            *old(api),
            *final(api),
            r,
            withdraw_pending_ruled(old(api).owner(), old(api).uncollected(), sender@),
        ),
{
    let owner = lift(api.owner_id())?;
    if *sender != owner {
        return Err(Error::Unauthorized);
    }
    let mut commands: Vec<Command> = Vec::new();
    if lift(api.has_uncollected_rewards())? {
        commands.push(Command::WithdrawPending);
    }
    assert(commands.deep_view() =~= withdraw_pending_ruled(
        api.owner(),
        api.uncollected(),
        sender@,
    )->Ok_0);
    Ok(commands)
}

/// What the rules make of a request to pay out: the flush first, where
/// value has accrued, and then the payment, always.
pub open spec fn distribute_ruled(
    owner: Seq<char>,
    uncollected: bool,
    sender: Seq<char>,
    recipient: Seq<char>,
    amount: u128,
) -> Result<Seq<Effect>, Error<()>> {
    if sender != owner {
        Err(Error::Unauthorized)
    } else if uncollected {
        Ok(seq![Effect::WithdrawPending, Effect::Send { recipient, amount }])
    } else {
        Ok(seq![Effect::Send { recipient, amount }])
    }
}

/// Asks for `amount` to be sent to `recipient`, after a flush where value
/// has accrued. Whether the pot can spend that much is for the chain to
/// say.
///
/// Turned down with `Unauthorized` where the sender does not own the pot.
pub fn distribute<Api>(api: &mut Api, sender: &Id, recipient: Id, amount: Amount) -> (r: Result<
    Vec<Command>,
    Error<Api::Error>,
>) where Api: Query
    ensures
        follows(
            *old(api),
            *final(api),
            r,
            distribute_ruled(
                old(api).owner(),
                old(api).uncollected(),
                sender@,
                recipient@,
                amount@,
            ),
        ),
{
    let owner = lift(api.owner_id())?;
    if *sender != owner {
        return Err(Error::Unauthorized);
    }
    let mut commands: Vec<Command> = Vec::new();
    if lift(api.has_uncollected_rewards())? {
        commands.push(Command::WithdrawPending);
    }
    commands.push(Command::Send { recipient, amount });
    assert(commands.deep_view() =~= distribute_ruled(
        api.owner(),
        api.uncollected(),
        sender@,
        recipient@,
        amount@,
    )->Ok_0);
    Ok(commands)
}

impl DeepView for Reply {
    type V = Seq<Effect>;

    open spec fn deep_view(&self) -> Seq<Effect> {
        commands_of(*self)
    }
}

/// What the rules make of a request to the pot.
pub open spec fn exec_ruled(owner: Seq<char>, uncollected: bool, msg: Msg) -> Result<
    Seq<Effect>,
    Error<()>,
> {
    match msg.kind {
        Kind::WithdrawPending => withdraw_pending_ruled(owner, uncollected, msg.sender@),
        Kind::Distribute { recipient, amount } => distribute_ruled(
            owner,
            uncollected,
            msg.sender@,
            recipient@,
            amount@,
        ),
    }
}

/// Handles one request: the pot's entry point. The reply carries the
/// commands of the operation that the request's kind names.
pub fn exec<Api>(api: &mut Api, msg: Msg) -> (r: Result<Reply, Error<Api::Error>>) where
    Api: Query,

    ensures
        follows(
            *old(api),
            *final(api),
            r,
            exec_ruled(old(api).owner(), old(api).uncollected(), msg),
        ),
        r matches Ok(reply) ==> reply is Commands,
{
    match msg.kind {
        Kind::WithdrawPending => {
            let commands = withdraw_pending(api, &msg.sender)?;
            Ok(Reply::Commands(commands))
        },
        Kind::Distribute { recipient, amount } => {
            let commands = distribute(api, &msg.sender, recipient, amount)?;
            Ok(Reply::Commands(commands))
        },
    }
}

/// What the contracts of one who carries the pot's replies out are stated
/// over: a record of what it has done.
pub trait Outbox: FallibleApi + Sized {
    /// The commands carried out so far, in their order.
    open spec fn carried_out(&self) -> Seq<Effect> {
        arbitrary()
    }

    /// Whether every command is carried out when it is asked for. One who
    /// does not say is not.
    open spec fn dependable(&self) -> bool {
        false
    }
}

/// What is asked of one who carries `commands` out: where it reports
/// success, they were done in their order, after what was done before, and
/// nothing else; and one who is dependable succeeds, and stays dependable.
pub open spec fn handled<H: Outbox>(
    before: H,
    after: H,
    r: Result<(), H::Error>,
    commands: Seq<Effect>,
) -> bool {
    &&& after.dependable() == before.dependable()
    &&& before.dependable() ==> r is Ok
    &&& r is Ok ==> after.carried_out() == before.carried_out() + commands
}

/// What carries the pot's replies out.
pub trait HandleReply: Outbox {
    type Response;

    /// The response as it would be given now.
    open spec fn response(&self) -> Self::Response {
        arbitrary()
    }

    /// Gives the response.
    fn into_response(self) -> (response: Self::Response)
        ensures
            response == self.response(),
    ;

    /// Flushes what has accrued.
    fn withdraw_pending(&mut self) -> (r: Result<(), Self::Error>)
        ensures
            handled(*old(self), *final(self), r, seq![Effect::WithdrawPending]),
    ;

    /// Sends `amount` to `receiver`.
    fn send_rewards(&mut self, receiver: Id, amount: Amount) -> (r: Result<(), Self::Error>)
        ensures
            handled(
                *old(self),
                *final(self),
                r,
                seq![Effect::Send { recipient: receiver@, amount: amount@ }],
            ),
    ;
}

/// Carries a reply of the pot out and gives the response: the response of
/// one who has done what `api` had done, then the reply's commands in
/// their order. The first command that fails ends it.
pub fn handle_reply<Api>(api: Api, reply: Reply) -> (r: Result<Api::Response, Api::Error>) where
    Api: HandleReply,

    ensures
        api.dependable() ==> r is Ok,
        r matches Ok(response) ==> exists|done: Api|
            {
                &&& handled(api, done, Ok::<(), Api::Error>(()), commands_of(reply))
                &&& response == #[trigger] done.response()
            },
{
    let mut doer = api;
    match reply {
        Reply::Empty => {
            assert(doer.carried_out() + commands_of(reply) =~= doer.carried_out());
        },
        Reply::Commands(cmds) => {
            let ghost all = cmds.deep_view();
            let mut at: usize = 0;
            assert(api.carried_out() + all.take(0) =~= api.carried_out());
            while at < cmds.len()
                invariant
                    at <= cmds.len(),
                    all == cmds.deep_view(),
                    doer.dependable() == api.dependable(),
                    doer.carried_out() == api.carried_out() + all.take(at as int),
                decreases cmds.len() - at,
            {
                assert(cmds[at as int]@ == all[at as int]);
                let done = match &cmds[at] {
                    Command::WithdrawPending => doer.withdraw_pending(),
                    Command::Send { recipient, amount } => doer.send_rewards(
                        recipient.duplicate(),
                        *amount,
                    ),
                };
                match done {
                    Ok(_) => {},
                    Err(e) => {
                        return Err(e);
                    },
                }
                assert((api.carried_out() + all.take(at as int)) + seq![all[at as int]]
                    =~= api.carried_out() + all.take(at as int + 1));
                at += 1;
            }
            assert(all.take(at as int) =~= all);
        },
    }
    let ghost done = doer;
    let response = doer.into_response();
    assert(handled(api, done, Ok::<(), Api::Error>(()), commands_of(reply)));
    assert(response == done.response());
    Ok(response)
}

} // verus!
