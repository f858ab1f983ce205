use cosmwasm_std::testing::MockApi as ChainApi;
use cosmwasm_std::Api;

use referrals_core::cw::{Address, ExecuteMsg, PotExecuteMsg};
use referrals_core::hub::{
    exec, handle_reply, Command, Kind, Msg, ReferralCode, Registration,
};
use referrals_core::mock::{MockApi, MockPot, Recorder};
use referrals_core::parse::{parse_hub_exec, parse_pot_exec};
use referrals_core::rewards_pot::{self, Tally};
use referrals_core::{Amount, Id};

fn addr(input: &str) -> Address {
    match ChainApi::default().addr_validate(input) {
        Ok(valid) => Address::Valid(Id::from(valid.into_string())),
        Err(error) => Address::Invalid(error.to_string()),
    }
}

/// Takes a message from the wire through the hub and carries the reply
/// out: the commands that came of it, and the referral code if one did.
fn exec_ok(api: &mut MockApi, sender: &str, msg: ExecuteMsg) -> (Vec<Command>, Option<u64>) {
    let msg = parse_hub_exec(Id::from(sender), msg).unwrap();
    let reply = exec(api, msg).unwrap();
    let done = handle_reply(Recorder::new(), reply).unwrap();
    let code = done.referral_codes().first().map(|code| code.to_u64());
    (done.commands().clone(), code)
}

fn payment(amount: u128, pot: &str, receiver: &str) -> Vec<Command> {
    vec![
        Command::WithdrawPending(Id::from(pot)),
        Command::RedistributeRewards {
            amount: Amount::new(amount).unwrap(),
            pot: Id::from(pot),
            receiver: Id::from(receiver),
        },
    ]
}

#[test]
fn hub_plumbing_works() {
    let mut api = MockApi::default().rewards_admin("self");

    let res = exec_ok(&mut api, "referrer", ExecuteMsg::RegisterReferrer);

    assert_eq!(res, (vec![], Some(1)));

    let res = exec_ok(
        &mut api,
        "dapp",
        ExecuteMsg::ActivateDapp {
            name: "dapp".to_owned(),
            percent: 75,
            collector: addr("collector"),
        },
    );

    assert_eq!(res, (vec![Command::CreateRewardsPot(Id::from("dapp"))], None));

    exec(
        &mut api,
        Msg {
            sender: Id::from("referrals_hub"),
            kind: Kind::Register(Registration::RewardsPot {
                dapp: Id::from("dapp"),
                rewards_pot: Id::from("rewards_pot_0"),
            }),
        },
    )
    .unwrap();

    let res = exec_ok(&mut api, "dapp", ExecuteMsg::SetDappFee { dapp: addr("dapp"), fee: 1000 });

    assert_eq!(
        res,
        (
            vec![Command::SetDappFee { dapp: Id::from("dapp"), amount: Amount::new(1000).unwrap() }],
            None
        )
    );

    api.set_current_fee(Amount::new(1000).unwrap());
    api.set_dapp_total_rewards(5000);

    let res = exec_ok(&mut api, "dapp", ExecuteMsg::RecordReferral { code: 1 });

    assert_eq!(res, (vec![], None));

    let res = exec_ok(
        &mut api,
        "referrer",
        ExecuteMsg::TransferOwnership { code: 1, owner: addr("referrer_new") },
    );

    assert_eq!(res, (vec![], None));

    let res = exec_ok(
        &mut api,
        "referrer_new",
        ExecuteMsg::CollectReferrer { code: 1, dapp: addr("dapp") },
    );

    assert_eq!(res, (payment(750, "rewards_pot_0", "referrer_new"), None));

    let res = exec_ok(
        &mut api,
        "collector",
        ExecuteMsg::ConfigureDapp {
            dapp: addr("dapp"),
            percent: None,
            collector: Some(addr("collector_new")),
            repo_url: None,
        },
    );

    assert_eq!(res, (vec![], None));

    let res = exec_ok(&mut api, "collector_new", ExecuteMsg::CollectDapp { dapp: addr("dapp") });

    assert_eq!(res, (payment(4250, "rewards_pot_0", "collector_new"), None));
}

#[test]
fn a_second_referrer_gets_the_next_code() {
    let mut api = MockApi::default();

    assert_eq!(exec_ok(&mut api, "referrer", ExecuteMsg::RegisterReferrer), (vec![], Some(1)));
    assert_eq!(
        exec_ok(&mut api, "another_referrer", ExecuteMsg::RegisterReferrer),
        (vec![], Some(2))
    );
    assert_eq!(ReferralCode::from(2).to_u64(), 2);
}

/// Takes a message from the wire through the pot and carries the reply out.
fn pot_exec(
    pot: MockPot,
    sender: &str,
    msg: PotExecuteMsg,
) -> Result<MockPot, rewards_pot::Error<referrals_core::mock::Error>> {
    let mut pot = pot;
    let msg = parse_pot_exec(Id::from(sender), msg).unwrap();
    let reply = rewards_pot::exec(&mut pot, msg)?;
    Ok(rewards_pot::handle_reply(pot, reply).unwrap())
}

#[test]
fn rewards_pot_plumbing_works() {
    let records: Vec<u128> = vec![1000, 1000, 1000];
    let mut tally = Tally::new(0, 0);

    let outstanding = tally.outstanding_records(records.len() as u64);
    assert_eq!(outstanding, 3);
    assert_eq!(tally.total_rewards(&records), Some(3000));

    let pot = MockPot::new("referrals_hub", tally.has_uncollected_rewards(records.len() as u64));
    let pot = pot_exec(pot, "referrals_hub", PotExecuteMsg::WithdrawRewards).unwrap();

    assert_eq!(pot.commands(), &vec![rewards_pot::Command::WithdrawPending]);

    assert!(tally.record_withdrawal(Some(3000), 3));

    let pot = MockPot::new("referrals_hub", tally.has_uncollected_rewards(records.len() as u64));
    let pot = pot_exec(
        pot,
        "referrals_hub",
        PotExecuteMsg::DistributeRewards { recipient: addr("collector"), amount: 1000 },
    )
    .unwrap();

    assert_eq!(
        pot.commands(),
        &vec![rewards_pot::Command::Send {
            recipient: Id::from("collector"),
            amount: Amount::new(1000).unwrap(),
        }]
    );

    // two more records added since collection

    let records: Vec<u128> = vec![1000, 1000, 1000, 1000, 1000];
    let outstanding = tally.outstanding_records(records.len() as u64) as usize;
    assert_eq!(outstanding, 2);
    let latest: Vec<u128> = records.iter().rev().take(outstanding).cloned().collect();

    assert_eq!(tally.total_rewards(&latest), Some(5000));
}

#[test]
fn non_admin_exec_fails() {
    let res = pot_exec(MockPot::new("referrals_hub", false), "bob", PotExecuteMsg::WithdrawRewards)
        .err()
        .unwrap();

    assert_eq!(res.message().unwrap(), "unauthorized");

    let res = pot_exec(
        MockPot::new("referrals_hub", false),
        "bob",
        PotExecuteMsg::DistributeRewards { recipient: addr("collector"), amount: 1000 },
    )
    .err()
    .unwrap();

    assert_eq!(res.message().unwrap(), "unauthorized");
}
