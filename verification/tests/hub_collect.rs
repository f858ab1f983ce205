use referrals_core::hub::collect;
use referrals_core::hub::{
    Command, Error, MutableCollectStore, MutableDappStore, MutableReferralStore, NonZeroPercent,
    ReadonlyCollectStore, ReadonlyReferralStore, ReferralCode,
};
use referrals_core::mock::MockApi;
use referrals_core::{Amount, Id};

fn nz(n: u128) -> Amount {
    Amount::new(n).unwrap()
}

fn nzp(p: u8) -> NonZeroPercent {
    NonZeroPercent::new(p).unwrap()
}

fn words<E>(error: Error<E>) -> String {
    error.message().unwrap()
}

fn amount(a: Option<Amount>) -> u128 {
    a.map_or(0, Amount::get)
}

/// What the store holds of the earnings and payments of one code at one
/// application.
#[derive(Debug, PartialEq)]
struct Sums {
    code_total_earnings: u128,
    code_dapp_earnings: u128,
    dapp_contributions: u128,
    code_total_collected: u128,
    code_dapp_collected: u128,
    dapp_total_collected: u128,
}

fn sums_of(api: &MockApi, dapp: &str, code: u64) -> Sums {
    let dapp = Id::from(dapp);
    let code = ReferralCode::new(code);
    Sums {
        code_total_earnings: amount(api.total_earnings(code).unwrap()),
        code_dapp_earnings: amount(api.dapp_earnings(&dapp, code).unwrap()),
        dapp_contributions: amount(api.dapp_contributions(&dapp).unwrap()),
        code_total_collected: amount(api.referrer_total_collected(code).unwrap()),
        code_dapp_collected: amount(api.referrer_dapp_collected(&dapp, code).unwrap()),
        dapp_total_collected: amount(api.dapp_total_collected(&dapp).unwrap()),
    }
}

fn payment(amount: u128, pot: &str, receiver: &str) -> Vec<Command> {
    vec![
        Command::WithdrawPending(Id::from(pot)),
        Command::RedistributeRewards {
            amount: nz(amount),
            pot: Id::from(pot),
            receiver: Id::from(receiver),
        },
    ]
}

#[test]
fn referrer_works() {
    let mut api = MockApi::default()
        .dapp("dapp")
        .rewards_pot("rewards_pot")
        .referral_code(1)
        .referral_code_owner("referrer")
        .dapp_total_rewards(11_000);

    api.set_total_earnings(ReferralCode::from(1), nz(5000)).unwrap();

    api.set_dapp_earnings(&Id::from("dapp"), ReferralCode::from(1), nz(5000)).unwrap();

    let res =
        collect::referrer(&mut api, Id::from("referrer"), &Id::from("dapp"), ReferralCode::from(1))
            .unwrap();

    assert_eq!(res, payment(5000, "rewards_pot", "referrer"));
    assert_eq!(
        format!("{:?}", res[0]),
        r#"WithdrawPending(Id("rewards_pot"))"#
    );

    assert_eq!(
        sums_of(&api, "dapp", 1),
        Sums {
            code_total_earnings: 5000,
            code_dapp_earnings: 5000,
            dapp_contributions: 0,
            code_total_collected: 5000,
            code_dapp_collected: 5000,
            dapp_total_collected: 0,
        }
    );

    api.set_total_earnings(ReferralCode::from(1), nz(7000)).unwrap();

    api.set_dapp_earnings(&Id::from("dapp"), ReferralCode::from(1), nz(7000)).unwrap();

    let res =
        collect::referrer(&mut api, Id::from("referrer"), &Id::from("dapp"), ReferralCode::from(1))
            .unwrap();

    assert_eq!(res, payment(2000, "rewards_pot", "referrer"));

    assert_eq!(
        sums_of(&api, "dapp", 1),
        Sums {
            code_total_earnings: 7000,
            code_dapp_earnings: 7000,
            dapp_contributions: 0,
            code_total_collected: 7000,
            code_dapp_collected: 7000,
            dapp_total_collected: 0,
        }
    );
}

#[test]
fn referrer_collects_per_application() {
    let mut api = MockApi::default().current_fee(nz(1000));
    api.add_dapp(&Id::from("one"), "one".to_owned()).unwrap();
    api.add_dapp(&Id::from("two"), "two".to_owned()).unwrap();
    api.set_percent(&Id::from("one"), nzp(50)).unwrap();
    api.set_percent(&Id::from("two"), nzp(20)).unwrap();
    api.set_rewards_pot(&Id::from("one"), Id::from("pot_one")).unwrap();
    api.set_rewards_pot(&Id::from("two"), Id::from("pot_two")).unwrap();
    api.set_code_owner(ReferralCode::new(1), Id::from("referrer")).unwrap();
    let code = ReferralCode::new(1);
    referrals_core::hub::referral::record(&mut api, &Id::from("one"), code).unwrap();
    referrals_core::hub::referral::record(&mut api, &Id::from("two"), code).unwrap();

    let res = collect::referrer(&mut api, Id::from("referrer"), &Id::from("one"), code).unwrap();
    assert_eq!(res, payment(500, "pot_one", "referrer"));
    let res = collect::referrer(&mut api, Id::from("referrer"), &Id::from("two"), code).unwrap();
    assert_eq!(res, payment(200, "pot_two", "referrer"));

    assert_eq!(amount(api.referrer_total_collected(code).unwrap()), 700);
    assert_eq!(amount(api.total_earnings(code).unwrap()), 700);
    assert_eq!(sums_of(&api, "one", 1).code_dapp_collected, 500);
    assert_eq!(sums_of(&api, "two", 1).code_dapp_collected, 200);
}

#[test]
fn referrer_code_not_registered_fails() {
    let mut api = MockApi::default()
        .dapp("dapp")
        .rewards_pot("rewards_pot")
        .referral_code_owner("referrer")
        .current_fee(nz(1000))
        .dapp_total_rewards(11_000);

    let res =
        collect::referrer(&mut api, Id::from("referrer"), &Id::from("dapp"), ReferralCode::from(1))
            .unwrap_err();

    assert_eq!(words(res), "referral code not registered");
}

#[test]
fn referrer_sender_not_code_owner_fails() {
    let mut api = MockApi::default()
        .dapp("dapp")
        .referral_code(1)
        .rewards_pot("rewards_pot")
        .referral_code_owner("referrer")
        .current_fee(nz(1000))
        .dapp_total_rewards(11_000);

    let res = collect::referrer(&mut api, Id::from("bob"), &Id::from("dapp"), ReferralCode::from(1))
        .unwrap_err();

    assert_eq!(words(res), "unauthorised");
}

#[test]
fn referrer_no_earnings_to_collect_fails() {
    let mut api = MockApi::default()
        .dapp("dapp")
        .referral_code(1)
        .rewards_pot("rewards_pot")
        .referral_code_owner("referrer")
        .current_fee(nz(1000))
        .dapp_total_rewards(11_000);

    let res =
        collect::referrer(&mut api, Id::from("referrer"), &Id::from("dapp"), ReferralCode::from(1))
            .unwrap_err();

    assert_eq!(words(res), "nothing to collect");

    api.set_percent(&Id::from("dapp"), nzp(50)).unwrap();

    api.set_total_earnings(ReferralCode::from(1), nz(5000)).unwrap();

    api.set_dapp_earnings(&Id::from("dapp"), ReferralCode::from(1), nz(5000)).unwrap();

    collect::referrer(&mut api, Id::from("referrer"), &Id::from("dapp"), ReferralCode::from(1))
        .unwrap();

    let before = sums_of(&api, "dapp", 1);

    let res =
        collect::referrer(&mut api, Id::from("referrer"), &Id::from("dapp"), ReferralCode::from(1))
            .unwrap_err();

    assert_eq!(words(res), "nothing to collect");
    assert_eq!(sums_of(&api, "dapp", 1), before);
}

#[test]
fn referrer_total_collected_overflow_fails() {
    let mut api = MockApi::default()
        .dapp("dapp")
        .rewards_pot("rewards_pot")
        .referral_code(1)
        .referral_code_owner("referrer");
    api.set_dapp_earnings(&Id::from("dapp"), ReferralCode::from(1), nz(10)).unwrap();
    api.set_referrer_total_collected(ReferralCode::from(1), nz(u128::MAX - 9)).unwrap();
    let before = sums_of(&api, "dapp", 1);

    let res =
        collect::referrer(&mut api, Id::from("referrer"), &Id::from("dapp"), ReferralCode::from(1))
            .unwrap_err();

    assert!(matches!(res, Error::Overflow));
    assert_eq!(sums_of(&api, "dapp", 1), before);
}

#[test]
fn referrer_without_a_pot_fails_and_changes_nothing() {
    let mut api = MockApi::default().dapp("dapp").referral_code(1).referral_code_owner("referrer");
    api.set_dapp_earnings(&Id::from("dapp"), ReferralCode::from(1), nz(10)).unwrap();

    let res =
        collect::referrer(&mut api, Id::from("referrer"), &Id::from("dapp"), ReferralCode::from(1))
            .unwrap_err();

    assert!(matches!(res, Error::Api(referrals_core::mock::Error::NotFound)));
    assert_eq!(sums_of(&api, "dapp", 1).code_dapp_collected, 0);
}

#[test]
fn owed_is_all_at_first_and_the_difference_later() {
    assert_eq!(collect::owed(nz(5000), None), Some(nz(5000)));
    assert_eq!(collect::owed(nz(7000), Some(nz(5000))), Some(nz(2000)));
    assert_eq!(collect::owed(nz(7000), Some(nz(7000))), None);
    assert_eq!(collect::owed(nz(7000), Some(nz(7001))), None);
    assert_eq!(collect::owed(nz(1), None), Some(nz(1)));
    assert_eq!(collect::owed(nz(u128::MAX), Some(nz(1))), Some(nz(u128::MAX - 1)));
}

#[test]
fn dapp_works() {
    let mut api = MockApi::default()
        .dapp("dapp")
        .rewards_pot("rewards_pot")
        .collector("collector")
        .referral_code(1)
        .dapp_total_rewards(11_000);

    api.set_dapp_contributions(&Id::from("dapp"), nz(5000)).unwrap();

    let res = collect::dapp(&mut api, Id::from("collector"), &Id::from("dapp")).unwrap();

    assert_eq!(res, payment(6000, "rewards_pot", "collector"));

    assert_eq!(
        sums_of(&api, "dapp", 1),
        Sums {
            code_total_earnings: 0,
            code_dapp_earnings: 0,
            dapp_contributions: 5000,
            code_total_collected: 0,
            code_dapp_collected: 0,
            dapp_total_collected: 6000,
        }
    );

    api.set_dapp_contributions(&Id::from("dapp"), nz(10_000)).unwrap();

    api.set_dapp_total_rewards(22_000);

    let res = collect::dapp(&mut api, Id::from("dapp"), &Id::from("dapp")).unwrap();

    assert_eq!(res, payment(6000, "rewards_pot", "dapp"));

    assert_eq!(
        sums_of(&api, "dapp", 1),
        Sums {
            code_total_earnings: 0,
            code_dapp_earnings: 0,
            dapp_contributions: 10000,
            code_total_collected: 0,
            code_dapp_collected: 0,
            dapp_total_collected: 12000,
        }
    );
}

#[test]
fn dapp_sender_not_dapp_or_collector_fails() {
    let mut api = MockApi::default().dapp("dapp").collector("collector");

    let res = collect::dapp(&mut api, Id::from("bob"), &Id::from("dapp")).unwrap_err();

    assert_eq!(words(res), "unauthorised");
}

#[test]
fn dapp_no_earnings_to_collect_fails() {
    let mut api = MockApi::default()
        .dapp("dapp")
        .rewards_pot("rewards_pot")
        .collector("collector")
        .referral_code(1);

    let res = collect::dapp(&mut api, Id::from("collector"), &Id::from("dapp")).unwrap_err();

    assert_eq!(words(res), "nothing to collect");

    api.set_dapp_contributions(&Id::from("dapp"), nz(5000)).unwrap();

    api.set_dapp_total_rewards(5000);

    let res = collect::dapp(&mut api, Id::from("collector"), &Id::from("dapp")).unwrap_err();

    assert_eq!(words(res), "nothing to collect");

    api.set_dapp_contributions(&Id::from("dapp"), nz(5000)).unwrap();

    api.set_dapp_total_rewards(11_000);

    collect::dapp(&mut api, Id::from("collector"), &Id::from("dapp")).unwrap();

    let res = collect::dapp(&mut api, Id::from("collector"), &Id::from("dapp")).unwrap_err();

    assert_eq!(words(res), "nothing to collect");
}

#[test]
fn dapp_with_more_given_than_reported_has_nothing_to_collect() {
    let mut api = MockApi::default()
        .dapp("dapp")
        .rewards_pot("rewards_pot")
        .collector("collector")
        .dapp_total_rewards(100);
    api.set_dapp_contributions(&Id::from("dapp"), nz(101)).unwrap();

    let res = collect::dapp(&mut api, Id::from("collector"), &Id::from("dapp")).unwrap_err();

    assert!(matches!(res, Error::NothingToCollect));
    assert_eq!(api.dapp_total_collected(&Id::from("dapp")).unwrap(), None);
}

#[test]
fn dapp_with_less_left_than_collected_has_nothing_to_collect() {
    let mut api = MockApi::default()
        .dapp("dapp")
        .rewards_pot("rewards_pot")
        .collector("collector")
        .dapp_total_rewards(1000);
    api.set_dapp_contributions(&Id::from("dapp"), nz(100)).unwrap();
    collect::dapp(&mut api, Id::from("dapp"), &Id::from("dapp")).unwrap();
    assert_eq!(amount(api.dapp_total_collected(&Id::from("dapp")).unwrap()), 900);

    api.set_dapp_contributions(&Id::from("dapp"), nz(300)).unwrap();
    let res = collect::dapp(&mut api, Id::from("dapp"), &Id::from("dapp")).unwrap_err();

    assert!(matches!(res, Error::NothingToCollect));
    assert_eq!(amount(api.dapp_total_collected(&Id::from("dapp")).unwrap()), 900);
}

#[test]
fn dapp_without_contributions_has_nothing_to_collect() {
    let mut api = MockApi::default()
        .dapp("dapp")
        .rewards_pot("rewards_pot")
        .collector("collector")
        .dapp_total_rewards(1000);

    let res = collect::dapp(&mut api, Id::from("collector"), &Id::from("dapp")).unwrap_err();

    assert!(matches!(res, Error::NothingToCollect));
}

#[test]
fn dapp_unknown_to_the_store_is_an_error_of_the_store() {
    let mut api = MockApi::default();

    let res = collect::dapp(&mut api, Id::from("bob"), &Id::from("dapp")).unwrap_err();
    assert!(matches!(res, Error::Api(referrals_core::mock::Error::NotFound)));

    let res = collect::dapp(&mut api, Id::from("dapp"), &Id::from("dapp")).unwrap_err();
    assert!(matches!(res, Error::Api(referrals_core::mock::Error::NotFound)));
}
