use referrals_core::hub::{handle_reply as hub_handle_reply, Command as HubCommand, ReferralCode, Reply as HubReply};
use referrals_core::hub::reply::handle_cmd;
use referrals_core::mock::{MockPot, Recorder};
use referrals_core::rewards_pot::{
    distribute, exec, handle_reply, withdraw_pending, Command, Error, Kind, Msg, Reply, Tally,
};
use referrals_core::{Amount, Id};

fn nz(n: u128) -> Amount {
    Amount::new(n).unwrap()
}

fn send(recipient: &str, amount: u128) -> Command {
    Command::Send { recipient: Id::from(recipient), amount: nz(amount) }
}

#[test]
fn withdraw_pending_flushes_only_what_has_accrued() {
    let mut pot = MockPot::new("dapp", true);
    assert_eq!(withdraw_pending(&mut pot, &Id::from("dapp")).unwrap(), vec![Command::WithdrawPending]);

    let mut pot = MockPot::new("dapp", false);
    assert_eq!(withdraw_pending(&mut pot, &Id::from("dapp")).unwrap(), vec![]);
}

#[test]
fn withdraw_pending_from_another_sender_fails() {
    let mut pot = MockPot::new("dapp", true);

    let res = withdraw_pending(&mut pot, &Id::from("bob")).unwrap_err();

    assert!(matches!(res, Error::Unauthorized));
    assert_eq!(res.message().unwrap(), "unauthorized");
}

#[test]
fn distribute_flushes_first() {
    let mut pot = MockPot::new("dapp", true);
    assert_eq!(
        distribute(&mut pot, &Id::from("dapp"), Id::from("referrer"), nz(500)).unwrap(),
        vec![Command::WithdrawPending, send("referrer", 500)]
    );

    let mut pot = MockPot::new("dapp", false);
    assert_eq!(
        distribute(&mut pot, &Id::from("dapp"), Id::from("referrer"), nz(500)).unwrap(),
        vec![send("referrer", 500)]
    );
}

#[test]
fn distribute_from_another_sender_fails() {
    let mut pot = MockPot::new("dapp", false);

    let res = distribute(&mut pot, &Id::from("bob"), Id::from("bob"), nz(500)).unwrap_err();

    assert!(matches!(res, Error::Unauthorized));
}

#[test]
fn exec_routes_to_the_operation() {
    let mut pot = MockPot::new("dapp", true);

    let res = exec(&mut pot, Msg { sender: Id::from("dapp"), kind: Kind::WithdrawPending }).unwrap();
    assert_eq!(res, Reply::Commands(vec![Command::WithdrawPending]));

    let res = exec(
        &mut pot,
        Msg {
            sender: Id::from("dapp"),
            kind: Kind::Distribute { recipient: Id::from("referrer"), amount: nz(7) },
        },
    )
    .unwrap();
    assert_eq!(res, Reply::Commands(vec![Command::WithdrawPending, send("referrer", 7)]));

    let res = exec(&mut pot, Msg { sender: Id::from("bob"), kind: Kind::WithdrawPending });
    assert!(matches!(res, Err(Error::Unauthorized)));
}

#[test]
fn a_reply_of_the_pot_is_carried_out_in_order() {
    let pot = MockPot::new("dapp", true);

    let done = handle_reply(
        pot,
        Reply::Commands(vec![Command::WithdrawPending, send("a", 1), send("b", 2)]),
    )
    .unwrap();
    assert_eq!(done.commands(), &vec![Command::WithdrawPending, send("a", 1), send("b", 2)]);

    let done = handle_reply(done, Reply::Empty).unwrap();
    assert_eq!(done.commands().len(), 3);

    let done = handle_reply(done, Reply::Commands(vec![send("c", 3)])).unwrap();
    assert_eq!(
        done.commands(),
        &vec![Command::WithdrawPending, send("a", 1), send("b", 2), send("c", 3)]
    );
}

#[test]
fn a_reply_of_the_hub_is_carried_out_in_order() {
    let commands = vec![
        HubCommand::WithdrawPending(Id::from("pot")),
        HubCommand::SetRewardsRecipient(Id::from("recipient")),
        HubCommand::SetRewardsAdmin(Id::from("admin")),
    ];

    let done = hub_handle_reply(Recorder::new(), HubReply::MultiCmd(commands.clone())).unwrap();
    assert_eq!(done.commands(), &commands);
    assert!(done.referral_codes().is_empty());

    let done = hub_handle_reply(done, HubReply::ReferralCode(ReferralCode::from(3))).unwrap();
    assert_eq!(done.commands(), &commands);
    assert_eq!(done.referral_codes(), &vec![ReferralCode::from(3)]);

    let done = hub_handle_reply(done, HubReply::Empty).unwrap();
    let done = hub_handle_reply(
        done,
        HubReply::Cmd(HubCommand::CreateRewardsPot(Id::from("dapp"))),
    )
    .unwrap();
    assert_eq!(done.commands().len(), 4);
    assert_eq!(done.commands()[3], HubCommand::CreateRewardsPot(Id::from("dapp")));
}

#[test]
fn every_command_of_the_hub_is_carried_out_as_itself() {
    let all = vec![
        HubCommand::CreateRewardsPot(Id::from("dapp")),
        HubCommand::SetRewardsRecipient(Id::from("recipient")),
        HubCommand::SetRewardsAdmin(Id::from("admin")),
        HubCommand::SetDappFee { dapp: Id::from("dapp"), amount: nz(10) },
        HubCommand::RedistributeRewards {
            amount: nz(20),
            pot: Id::from("pot"),
            receiver: Id::from("receiver"),
        },
        HubCommand::WithdrawPending(Id::from("pot")),
    ];
    let mut recorder = Recorder::new();

    for command in all.iter() {
        handle_cmd(&mut recorder, command.clone()).unwrap();
        assert_eq!(command.duplicate(), *command);
    }

    assert_eq!(recorder.commands(), &all);
}

#[test]
fn the_tally_counts_what_is_outstanding() {
    let tally = Tally::new(100, 5);

    assert_eq!(tally.rewards_collected(), 100);
    assert_eq!(tally.records_collected(), 5);
    assert_eq!(tally.outstanding_records(8), 3);
    assert_eq!(tally.outstanding_records(5), 0);
    assert_eq!(tally.outstanding_records(2), 0);
    assert!(tally.has_uncollected_rewards(6));
    assert!(!tally.has_uncollected_rewards(5));
    assert!(!tally.has_uncollected_rewards(0));
}

#[test]
fn the_tally_adds_outstanding_rewards() {
    let tally = Tally::new(100, 5);

    assert_eq!(tally.total_rewards(&vec![]), Some(100));
    assert_eq!(tally.total_rewards(&vec![1, 2, 3]), Some(106));
    assert_eq!(tally.total_rewards(&vec![u128::MAX - 100]), Some(u128::MAX));
    assert_eq!(tally.total_rewards(&vec![u128::MAX - 100, 1]), None);
    assert_eq!(tally.total_rewards(&vec![u128::MAX, 0]), None);
}

#[test]
fn the_tally_takes_withdrawals_in() {
    let mut tally = Tally::new(100, 5);

    assert!(tally.record_withdrawal(None, 9));
    assert_eq!(tally, Tally::new(100, 5));

    assert!(tally.record_withdrawal(Some(50), 9));
    assert_eq!(tally, Tally::new(150, 9));

    assert!(!tally.record_withdrawal(Some(u128::MAX - 149), 12));
    assert_eq!(tally, Tally::new(150, 9));

    assert!(tally.record_withdrawal(Some(u128::MAX - 150), 12));
    assert_eq!(tally, Tally::new(u128::MAX, 12));
}
