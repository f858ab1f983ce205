use referrals_core::hub::{
    exec, Collection, Command, Configure, DappMetadata, Error, Kind as MsgKind, Msg,
    NonZeroPercent, ReadonlyCollectStore, ReadonlyDappStore, ReadonlyReferralStore, ReferralCode,
    Registration, Reply,
};
use referrals_core::mock::{MockApi, SELF_ID};
use referrals_core::{Amount, Id};

fn nz(n: u128) -> Amount {
    Amount::new(n).unwrap()
}

fn nzp(p: u8) -> NonZeroPercent {
    NonZeroPercent::new(p).unwrap()
}

fn amount(a: Option<Amount>) -> u128 {
    a.map_or(0, Amount::get)
}

fn exec_msg_ok(api: &mut MockApi, sender: &str, kind: impl Into<MsgKind>) -> Reply {
    exec(api, Msg { sender: Id::from(sender), kind: kind.into() }).unwrap()
}

fn exec_msg_err(
    api: &mut MockApi,
    sender: &str,
    kind: impl Into<MsgKind>,
) -> Error<referrals_core::mock::Error> {
    exec(api, Msg { sender: Id::from(sender), kind: kind.into() }).unwrap_err()
}

fn payment(amount: u128, pot: &str, receiver: &str) -> Reply {
    Reply::MultiCmd(vec![
        Command::WithdrawPending(Id::from(pot)),
        Command::RedistributeRewards {
            amount: nz(amount),
            pot: Id::from(pot),
            receiver: Id::from(receiver),
        },
    ])
}

#[test]
fn collect_earnings_post_deregister() {
    let mut api = MockApi::default().rewards_admin(SELF_ID).current_fee(nz(1000));

    exec_msg_ok(
        &mut api,
        "dapp",
        Registration::Dapp {
            name: "dapp".to_owned(),
            percent: nzp(50),
            collector: Id::from("collector"),
        },
    );

    exec_msg_ok(
        &mut api,
        "self",
        Registration::RewardsPot { dapp: Id::from("dapp"), rewards_pot: Id::from("rewards_pot") },
    );

    exec_msg_ok(&mut api, "referrer", Registration::Referrer);

    exec_msg_ok(
        &mut api,
        "collector",
        Configure::DappFee { dapp: Id::from("dapp"), fee: nz(1000) },
    );

    exec_msg_ok(&mut api, "dapp", MsgKind::Referral { code: ReferralCode::from(1) });

    api.set_dapp_total_rewards(1222);

    exec_msg_ok(
        &mut api,
        "collector",
        Registration::DeregisterDapp {
            dapp: Id::from("dapp"),
            rewards_admin: Id::from("collector"),
            rewards_recipient: Id::from("collector"),
        },
    );

    let res = exec_msg_ok(
        &mut api,
        "referrer",
        Collection::Referrer { code: ReferralCode::from(1), dapp: Id::from("dapp") },
    );

    assert_eq!(res, payment(500, "rewards_pot", "referrer"));

    let res = exec_msg_ok(&mut api, "collector", Collection::Dapp { dapp: Id::from("dapp") });

    assert_eq!(res, payment(722, "rewards_pot", "collector"));
}

#[test]
fn msg_routing() {
    let mut api = MockApi::default().rewards_admin(SELF_ID);

    let res = exec_msg_ok(
        &mut api,
        "dapp",
        Registration::Dapp {
            name: "dapp".to_owned(),
            percent: nzp(50),
            collector: Id::from("collector"),
        },
    );

    assert_eq!(res, Reply::Cmd(Command::CreateRewardsPot(Id::from("dapp"))));
    assert_eq!(format!("{res:?}"), r#"Cmd(CreateRewardsPot(Id("dapp")))"#);

    let res = exec_msg_ok(
        &mut api,
        "self",
        Registration::RewardsPot { dapp: Id::from("dapp"), rewards_pot: Id::from("rewards_pot") },
    );

    assert_eq!(res, Reply::Cmd(Command::SetRewardsRecipient(Id::from("rewards_pot"))));

    let res = exec_msg_ok(&mut api, "referrer1", Registration::Referrer);

    assert_eq!(res, Reply::ReferralCode(ReferralCode::from(1)));

    let res = exec_msg_ok(
        &mut api,
        "collector",
        Configure::DappFee { dapp: Id::from("dapp"), fee: nz(1000) },
    );

    assert_eq!(res, Reply::Cmd(Command::SetDappFee { dapp: Id::from("dapp"), amount: nz(1000) }));

    api.set_current_fee(nz(1000));

    assert_eq!(api.percent(&Id::from("dapp")).unwrap().to_u8(), 50);

    let res = exec_msg_ok(
        &mut api,
        "collector",
        Configure::DappMetadata {
            dapp: Id::from("dapp"),
            metadata: DappMetadata {
                percent: Some(nzp(75)),
                collector: None,
                repo_url: Some("some_repo".to_owned()),
            },
        },
    );

    assert_eq!(res, Reply::Empty);

    assert_eq!(api.percent(&Id::from("dapp")).unwrap().to_u8(), 75);

    assert_eq!(api.owner_of(ReferralCode::from(1)).unwrap(), Some(Id::from("referrer1")));

    let res = exec_msg_ok(
        &mut api,
        "referrer1",
        Configure::TransferReferralCodeOwnership {
            code: ReferralCode::from(1),
            owner: Id::from("referrer2"),
        },
    );

    assert_eq!(res, Reply::Empty);

    assert_eq!(api.owner_of(ReferralCode::from(1)).unwrap(), Some(Id::from("referrer2")));

    assert_eq!(amount(api.dapp_earnings(&Id::from("dapp"), ReferralCode::from(1)).unwrap()), 0);

    let res = exec_msg_ok(&mut api, "dapp", MsgKind::Referral { code: ReferralCode::from(1) });

    assert_eq!(res, Reply::Empty);

    assert_eq!(amount(api.dapp_earnings(&Id::from("dapp"), ReferralCode::from(1)).unwrap()), 750);

    let res = exec_msg_ok(
        &mut api,
        "referrer2",
        Collection::Referrer { code: ReferralCode::from(1), dapp: Id::from("dapp") },
    );

    assert_eq!(res, payment(750, "rewards_pot", "referrer2"));

    api.set_dapp_total_rewards(1333);

    let dapp = Id::from("dapp");
    let code = ReferralCode::from(1);
    assert_eq!(amount(api.total_earnings(code).unwrap()), 750);
    assert_eq!(amount(api.dapp_earnings(&dapp, code).unwrap()), 750);
    assert_eq!(amount(api.dapp_contributions(&dapp).unwrap()), 750);
    assert_eq!(amount(api.referrer_total_collected(code).unwrap()), 750);
    assert_eq!(amount(api.referrer_dapp_collected(&dapp, code).unwrap()), 750);
    assert_eq!(amount(api.dapp_total_collected(&dapp).unwrap()), 0);
    assert_eq!(api.latest().unwrap(), Some(code));
    assert_eq!(ReadonlyDappStore::collector(&api, &dapp).unwrap(), Id::from("collector"));
    assert_eq!(ReadonlyDappStore::rewards_pot(&api, &dapp).unwrap(), Id::from("rewards_pot"));

    let res = exec_msg_ok(&mut api, "collector", Collection::Dapp { dapp: Id::from("dapp") });

    assert_eq!(res, payment(583, "rewards_pot", "collector"));

    let res = exec_msg_ok(
        &mut api,
        "collector",
        Registration::DeregisterDapp {
            dapp: Id::from("dapp"),
            rewards_admin: Id::from("collector"),
            rewards_recipient: Id::from("collector"),
        },
    );

    assert_eq!(
        res,
        Reply::MultiCmd(vec![
            Command::WithdrawPending(Id::from("rewards_pot")),
            Command::SetRewardsRecipient(Id::from("collector")),
            Command::SetRewardsAdmin(Id::from("collector")),
        ])
    );
}

#[test]
fn a_second_report_of_a_pot_does_not_overwrite() {
    let mut api = MockApi::default().rewards_admin(SELF_ID);
    exec_msg_ok(
        &mut api,
        "dapp",
        Registration::Dapp {
            name: "dapp".to_owned(),
            percent: nzp(50),
            collector: Id::from("collector"),
        },
    );
    exec_msg_ok(
        &mut api,
        "pot",
        Registration::RewardsPot { dapp: Id::from("dapp"), rewards_pot: Id::from("pot") },
    );

    let res = exec_msg_err(
        &mut api,
        "other",
        Registration::RewardsPot { dapp: Id::from("dapp"), rewards_pot: Id::from("other") },
    );

    assert!(matches!(res, Error::RewardsPotAlreadySet));
    assert_eq!(ReadonlyDappStore::rewards_pot(&api, &Id::from("dapp")).unwrap(), Id::from("pot"));
}

#[test]
fn without_a_reported_pot_collecting_fails_cleanly() {
    let mut api = MockApi::default().rewards_admin(SELF_ID).current_fee(nz(1000));
    exec_msg_ok(
        &mut api,
        "dapp",
        Registration::Dapp {
            name: "dapp".to_owned(),
            percent: nzp(50),
            collector: Id::from("collector"),
        },
    );
    exec_msg_ok(&mut api, "referrer", Registration::Referrer);
    exec_msg_ok(&mut api, "dapp", MsgKind::Referral { code: ReferralCode::from(1) });

    let res = exec_msg_err(
        &mut api,
        "referrer",
        Collection::Referrer { code: ReferralCode::from(1), dapp: Id::from("dapp") },
    );

    assert!(matches!(res, Error::Api(referrals_core::mock::Error::NotFound)));
    assert_eq!(api.referrer_total_collected(ReferralCode::from(1)).unwrap(), None);
}

#[test]
fn every_rejection_has_its_words() {
    let all: Vec<(Error<()>, &str)> = vec![
        (Error::Unauthorized, "unauthorised"),
        (Error::AlreadyRegistered, "already registered"),
        (Error::DappNotRegistered, "dapp not registered"),
        (Error::ReferralCodeNotRegistered, "referral code not registered"),
        (Error::InvalidRewardsAdmin, "invalid rewards admin"),
        (Error::InvalidRewardsPotAdmin, "invalid rewards pot admin"),
        (Error::RewardsPotAlreadySet, "rewards pot already set"),
        (Error::Overflow, "math overflow"),
        (Error::NothingToCollect, "nothing to collect"),
    ];
    for (error, words) in all {
        assert_eq!(error.message().unwrap(), words);
    }
    assert_eq!(Error::Api(()).message(), None);
}
