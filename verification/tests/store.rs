use referrals_core::hub::query::{all_dapps, dapp_info, handle};
use referrals_core::hub::{
    DappInfo, DappQuery, DappsQuery, Error, MutableCollectStore, MutableDappStore,
    MutableReferralStore, NonZeroPercent, QueryRequest, QueryResponse, ReadonlyCollectStore,
    ReadonlyDappStore, ReadonlyReferralStore, ReferralCode, ReferrersQuery,
};
use referrals_core::mock::{Error as StoreError, MockApi, SELF_ID};
use referrals_core::storage::{count_invocation, next_index, page_bounds, Invocations};
use referrals_core::{Amount, Id};

fn nz(n: u128) -> Amount {
    Amount::new(n).unwrap()
}

fn nzp(p: u8) -> NonZeroPercent {
    NonZeroPercent::new(p).unwrap()
}

#[test]
fn dapp_storage_works() {
    let mut storage = MockApi::default();

    let id1 = Id::from("id1");
    let id2 = Id::from("id2");

    storage.add_dapp(&id1, "dapp1".to_owned()).unwrap();
    storage.set_percent(&id1, nzp(100)).unwrap();
    storage.set_collector(&id1, Id::from("collector")).unwrap();
    storage.set_repo_url(&id1, "some_repo".to_owned()).unwrap();
    storage.set_rewards_pot(&id1, Id::from("rewards_pot_1")).unwrap();
    storage.add_dapp(&id2, "dapp2".to_owned()).unwrap();
    storage.set_percent(&id2, nzp(75)).unwrap();
    storage.set_collector(&id2, Id::from("another_collector")).unwrap();
    storage.set_repo_url(&id2, "some_other_repo".to_owned()).unwrap();
    storage.set_rewards_pot(&id2, Id::from("rewards_pot_2")).unwrap();

    assert_eq!(ReadonlyDappStore::collector(&storage, &id1).unwrap().into_string(), "collector");
    assert_eq!(
        ReadonlyDappStore::collector(&storage, &id2).unwrap().into_string(),
        "another_collector"
    );
    assert_eq!(storage.all_dapp_ids(None, None).unwrap(), vec![id1.clone(), id2.clone()]);
    assert_eq!(storage.total_dapp_count().unwrap(), 2);
    assert_eq!(storage.dapp_name(&id1).unwrap(), Some("dapp1".to_owned()));
    assert_eq!(storage.dapp_name(&id2).unwrap(), Some("dapp2".to_owned()));
    assert_eq!(storage.percent(&id1).unwrap().to_u8(), 100);
    assert_eq!(storage.dapp_repo_url(&id1).unwrap(), Some("some_repo".to_owned()));
    assert_eq!(storage.dapp_repo_url(&id2).unwrap(), Some("some_other_repo".to_owned()));
    assert_eq!(
        ReadonlyDappStore::rewards_pot(&storage, &id1).unwrap().into_string(),
        "rewards_pot_1"
    );

    assert!(storage.dapp_exists(&id1).unwrap());

    storage.remove_dapp(&id1).unwrap();

    assert!(!storage.dapp_exists(&id1).unwrap());

    assert!(storage.dapp_exists(&id2).unwrap());

    assert_eq!(storage.percent(&id2).unwrap().to_u8(), 75);

    assert_eq!(
        ReadonlyDappStore::collector(&storage, &id2).unwrap().into_string(),
        "another_collector"
    );

    assert!(storage.has_rewards_pot(&id2).unwrap());

    assert_eq!(
        ReadonlyDappStore::rewards_pot(&storage, &id2).unwrap().into_string(),
        "rewards_pot_2"
    );

    storage.add_dapp(&Id::from("no_pot"), "no_pot".to_owned()).unwrap();

    assert!(!storage.has_rewards_pot(&Id::from("no_pot")).unwrap());
}

#[test]
fn an_application_that_registers_again_keeps_its_place() {
    let mut storage = MockApi::default();
    let (a, b, c) = (Id::from("a"), Id::from("b"), Id::from("c"));

    storage.add_dapp(&a, "a".to_owned()).unwrap();
    storage.add_dapp(&b, "b".to_owned()).unwrap();
    storage.remove_dapp(&a).unwrap();
    storage.add_dapp(&c, "c".to_owned()).unwrap();
    storage.add_dapp(&a, "a again".to_owned()).unwrap();

    assert_eq!(storage.all_dapp_ids(None, None).unwrap(), vec![a.clone(), b, c]);
    assert_eq!(storage.total_dapp_count().unwrap(), 3);
    assert_eq!(storage.dapp_name(&a).unwrap(), Some("a again".to_owned()));
}

#[test]
fn pages_run_from_start_up_to_and_with_the_limit() {
    let mut storage = MockApi::default();
    assert_eq!(storage.all_dapp_ids(None, None).unwrap(), vec![]);
    assert_eq!(storage.all_dapp_ids(Some(5), Some(1)).unwrap(), vec![]);
    assert_eq!(storage.total_dapp_count().unwrap(), 0);

    let ids: Vec<Id> = ["a", "b", "c", "d", "e"].iter().map(|id| Id::from(*id)).collect();
    for id in ids.iter() {
        storage.add_dapp(id, id.as_str().to_owned()).unwrap();
    }

    assert_eq!(storage.all_dapp_ids(None, None).unwrap(), ids);
    assert_eq!(storage.all_dapp_ids(Some(1), None).unwrap(), ids[1..].to_vec());
    assert_eq!(storage.all_dapp_ids(Some(4), None).unwrap(), ids[4..].to_vec());
    assert_eq!(storage.all_dapp_ids(None, Some(0)).unwrap(), ids[..1].to_vec());
    assert_eq!(storage.all_dapp_ids(None, Some(2)).unwrap(), ids[..3].to_vec());
    assert_eq!(storage.all_dapp_ids(Some(1), Some(2)).unwrap(), ids[1..4].to_vec());
    assert_eq!(storage.all_dapp_ids(Some(3), Some(9)).unwrap(), ids[3..].to_vec());
    assert_eq!(storage.all_dapp_ids(Some(3), Some(u64::MAX)).unwrap(), ids[3..].to_vec());
    assert_eq!(storage.all_dapp_ids(Some(5), None).unwrap_err(), StoreError::IndexOutOfBounds);
    assert_eq!(StoreError::IndexOutOfBounds.message(), "index out of bounds");
    assert_eq!(StoreError::NotFound.message(), "not found");
    assert_eq!(StoreError::CounterOverflow.message(), "counter overflow");
}

#[test]
fn referral_storage_works() {
    let mut storage = MockApi::default();

    let code1 = ReferralCode::from(1);
    let code2 = ReferralCode::from(2);
    let code3 = ReferralCode::from(3);
    let id1 = Id::from("id1");
    let id2 = Id::from("id2");
    let id3 = Id::from("id3");
    let dapp1 = Id::from("dapp1");
    let dapp2 = Id::from("dapp2");
    let dapp3 = Id::from("dapp3");

    storage.set_code_owner(code1, id1.clone()).unwrap();

    storage.set_latest(code2).unwrap();

    storage.set_code_owner(code2, id2.clone()).unwrap();

    storage.increment_invocations(&dapp1, code1).unwrap();

    storage.increment_invocations(&dapp2, code1).unwrap();

    storage.increment_invocations(&dapp2, code2).unwrap();

    storage.set_total_earnings(code1, nz(2000)).unwrap();

    storage.set_total_earnings(code2, nz(1000)).unwrap();

    storage.set_dapp_earnings(&dapp1, code1, nz(1000)).unwrap();

    storage.set_dapp_earnings(&dapp2, code1, nz(1000)).unwrap();

    storage.set_dapp_earnings(&dapp2, code2, nz(1000)).unwrap();

    storage.set_dapp_contributions(&dapp1, nz(1000)).unwrap();

    storage.set_dapp_contributions(&dapp2, nz(2000)).unwrap();

    assert_eq!(ReferrersQuery::referral_code(&storage, &id1).unwrap(), Some(code1));
    assert_eq!(ReferrersQuery::referral_code(&storage, &id2).unwrap(), Some(code2));
    assert_eq!(ReferrersQuery::referral_code(&storage, &id3).unwrap(), None);
    assert_eq!(storage.dapp_discrete_referrers(&dapp1).unwrap(), 1);
    assert_eq!(storage.dapp_discrete_referrers(&dapp2).unwrap(), 2);
    assert_eq!(storage.dapp_discrete_referrers(&dapp3).unwrap(), 0);
    assert_eq!(storage.dapp_total_invocations(&dapp1).unwrap(), 1);
    assert_eq!(storage.dapp_total_invocations(&dapp2).unwrap(), 2);
    assert_eq!(storage.dapp_total_invocations(&dapp3).unwrap(), 0);

    assert!(storage.code_exists(code1).unwrap());
    assert!(storage.code_exists(code2).unwrap());
    assert!(!storage.code_exists(code3).unwrap());

    assert!(storage.owner_exists(&id1).unwrap());
    assert!(storage.owner_exists(&id2).unwrap());
    assert!(!storage.owner_exists(&id3).unwrap());

    assert_eq!(storage.owner_of(code1).unwrap().unwrap().into_string(), "id1");

    assert_eq!(storage.owner_of(code2).unwrap().unwrap().into_string(), "id2");

    assert!(storage.owner_of(code3).unwrap().is_none());

    assert_eq!(storage.latest().unwrap().unwrap().to_u64(), 2);

    assert_eq!(storage.total_earnings(code1).unwrap().unwrap().get(), 2000);

    assert_eq!(storage.total_earnings(code2).unwrap().unwrap().get(), 1000);

    assert!(storage.total_earnings(code3).unwrap().is_none());

    assert_eq!(storage.dapp_earnings(&dapp1, code1).unwrap().unwrap().get(), 1000);

    assert_eq!(storage.dapp_earnings(&dapp2, code2).unwrap().unwrap().get(), 1000);

    assert!(storage.dapp_earnings(&dapp1, code2).unwrap().is_none());

    assert_eq!(storage.dapp_contributions(&dapp1).unwrap().unwrap().get(), 1000);

    assert_eq!(storage.dapp_contributions(&dapp2).unwrap().unwrap().get(), 2000);

    assert!(storage.dapp_contributions(&dapp3).unwrap().is_none());
}

#[test]
fn a_referrer_counts_once_however_often_it_comes() {
    let mut storage = MockApi::default();
    let dapp = Id::from("dapp");

    for _ in 0..3 {
        storage.increment_invocations(&dapp, ReferralCode::from(1)).unwrap();
    }
    storage.increment_invocations(&dapp, ReferralCode::from(2)).unwrap();
    storage.increment_invocations(&Id::from("other"), ReferralCode::from(1)).unwrap();

    assert_eq!(storage.dapp_total_invocations(&dapp).unwrap(), 4);
    assert_eq!(storage.dapp_discrete_referrers(&dapp).unwrap(), 2);
    assert_eq!(storage.dapp_total_invocations(&Id::from("other")).unwrap(), 1);
    assert_eq!(storage.dapp_discrete_referrers(&Id::from("other")).unwrap(), 1);
}

#[test]
fn collect_storage_works() {
    let mut storage = MockApi::default();

    let code1 = ReferralCode::from(1);
    let code2 = ReferralCode::from(2);
    let code3 = ReferralCode::from(3);
    let dapp1 = Id::from("dapp1");
    let dapp2 = Id::from("dapp2");
    let dapp3 = Id::from("dapp3");

    storage.set_referrer_total_collected(code1, nz(1000)).unwrap();
    storage.set_referrer_dapp_collected(&dapp1, code1, nz(500)).unwrap();
    storage.set_referrer_dapp_collected(&dapp2, code1, nz(500)).unwrap();

    storage.set_referrer_total_collected(code2, nz(3000)).unwrap();
    storage.set_referrer_dapp_collected(&dapp1, code2, nz(2000)).unwrap();
    storage.set_referrer_dapp_collected(&dapp2, code2, nz(1000)).unwrap();

    storage.set_dapp_total_collected(&dapp1, nz(200)).unwrap();
    storage.set_dapp_total_collected(&dapp2, nz(500)).unwrap();

    assert_eq!(storage.referrer_total_collected(code1).unwrap().unwrap().get(), 1000);

    assert_eq!(storage.referrer_total_collected(code2).unwrap().unwrap().get(), 3000);

    assert!(storage.referrer_total_collected(code3).unwrap().is_none());

    assert_eq!(storage.referrer_dapp_collected(&dapp1, code1).unwrap().unwrap().get(), 500);

    assert_eq!(storage.referrer_dapp_collected(&dapp1, code2).unwrap().unwrap().get(), 2000);

    assert_eq!(storage.referrer_dapp_collected(&dapp2, code1).unwrap().unwrap().get(), 500);

    assert_eq!(storage.referrer_dapp_collected(&dapp2, code2).unwrap().unwrap().get(), 1000);

    assert!(storage.referrer_dapp_collected(&dapp1, code3).unwrap().is_none());

    assert!(storage.referrer_dapp_collected(&dapp2, code3).unwrap().is_none());

    assert_eq!(storage.dapp_total_collected(&dapp1).unwrap().unwrap().get(), 200);

    assert_eq!(storage.dapp_total_collected(&dapp2).unwrap().unwrap().get(), 500);

    assert!(storage.dapp_total_collected(&dapp3).unwrap().is_none());
}

#[test]
fn the_facts_of_the_chain_are_the_same_for_all() {
    let api = MockApi::default();
    assert_eq!(api.self_id().unwrap(), Id::from(SELF_ID));
    assert_eq!(DappQuery::rewards_admin(&api, &Id::from("x")), Err(StoreError::NotFound));
    assert_eq!(DappQuery::rewards_pot_admin(&api, &Id::from("x")).unwrap(), Id::from("self"));
    assert_eq!(DappQuery::current_fee(&api, &Id::from("x")).unwrap(), None);

    let api = api.rewards_admin("admin").rewards_pot_admin("pot_admin").current_fee(nz(3));
    assert_eq!(DappQuery::rewards_admin(&api, &Id::from("x")).unwrap(), Id::from("admin"));
    assert_eq!(DappQuery::rewards_admin(&api, &Id::from("y")).unwrap(), Id::from("admin"));
    assert_eq!(DappQuery::rewards_pot_admin(&api, &Id::from("x")).unwrap(), Id::from("pot_admin"));
    assert_eq!(DappQuery::current_fee(&api, &Id::from("x")).unwrap(), Some(nz(3)));
}

fn fixture() -> MockApi {
    let mut api = MockApi::default()
        .current_fee(nz(1000))
        .dapp_total_rewards(9000)
        .collector("collector")
        .rewards_pot("pot")
        .dapp("one")
        .dapp("two");
    api.set_percent(&Id::from("one"), nzp(50)).unwrap();
    api.set_percent(&Id::from("two"), nzp(25)).unwrap();
    api.set_repo_url(&Id::from("two"), "repo".to_owned()).unwrap();
    api.set_code_owner(ReferralCode::from(1), Id::from("referrer")).unwrap();
    referrals_core::hub::referral::record(&mut api, &Id::from("one"), ReferralCode::from(1)).unwrap();
    api
}

fn one() -> DappInfo {
    DappInfo {
        id: Id::from("one"),
        active: true,
        name: Some("one".to_owned()),
        percent: nzp(50),
        repo_url: None,
        fee: Some(nz(1000)),
        total_invocations: 1,
        discrete_referrers: 1,
        total_contributions: 500,
        total_rewards: 9000,
    }
}

fn two() -> DappInfo {
    DappInfo {
        id: Id::from("two"),
        active: true,
        name: Some("two".to_owned()),
        percent: nzp(25),
        repo_url: Some("repo".to_owned()),
        fee: Some(nz(1000)),
        total_invocations: 0,
        discrete_referrers: 0,
        total_contributions: 0,
        total_rewards: 9000,
    }
}

#[test]
fn dapp_info_tells_all_of_one_application() {
    let mut api = fixture();

    assert_eq!(dapp_info(&api, Id::from("one")).unwrap(), one());
    assert_eq!(dapp_info(&api, Id::from("two")).unwrap(), two());

    api.remove_dapp(&Id::from("two")).unwrap();
    let gone = dapp_info(&api, Id::from("two")).unwrap();
    assert!(!gone.active);
    assert_eq!(gone.name, None);
    assert_eq!(gone.percent, nzp(25));

    let res = dapp_info(&api, Id::from("unknown")).unwrap_err();
    assert!(matches!(res, Error::Api(StoreError::NotFound)));
}

#[test]
fn an_application_without_a_fee_is_not_active() {
    let mut api = MockApi::default().rewards_pot("pot").dapp("one");
    api.set_percent(&Id::from("one"), nzp(50)).unwrap();

    let info = dapp_info(&api, Id::from("one")).unwrap();

    assert!(!info.active);
    assert_eq!(info.fee, None);
    assert_eq!(info.total_rewards, 0);
    assert_eq!(info.total_contributions, 0);
}

#[test]
fn all_dapps_tells_one_page() {
    let api = fixture();

    assert_eq!(all_dapps(&api, None, None).unwrap(), vec![one(), two()]);
    assert_eq!(all_dapps(&api, Some(1), None).unwrap(), vec![two()]);
    assert_eq!(all_dapps(&api, None, Some(0)).unwrap(), vec![one()]);
    assert!(matches!(
        all_dapps(&api, Some(2), None),
        Err(Error::Api(StoreError::IndexOutOfBounds))
    ));
    assert_eq!(all_dapps(&MockApi::default(), None, None).unwrap(), vec![]);
}

#[test]
fn questions_are_answered() {
    let api = fixture();

    assert_eq!(
        handle(&api, QueryRequest::TotalDappCount).unwrap(),
        QueryResponse::TotalDappCount(2)
    );
    assert_eq!(
        handle(&api, QueryRequest::Dapp(Id::from("one"))).unwrap(),
        QueryResponse::Dapp(one())
    );
    assert_eq!(
        handle(&api, QueryRequest::AllDapps { start: None, limit: None }).unwrap(),
        QueryResponse::AllDapps(vec![one(), two()])
    );
    assert_eq!(
        handle(&api, QueryRequest::ReferralCode(Id::from("referrer"))).unwrap(),
        QueryResponse::ReferralCode(Some(ReferralCode::from(1)))
    );
    assert_eq!(
        handle(&api, QueryRequest::ReferralCode(Id::from("nobody"))).unwrap(),
        QueryResponse::ReferralCode(None)
    );
}

#[test]
fn the_rules_of_counting_and_paging() {
    let fresh = Invocations { by_referrer: 0, total: 7, discrete_referrers: 2 };
    assert_eq!(
        count_invocation(fresh),
        Ok(Invocations { by_referrer: 1, total: 8, discrete_referrers: 3 })
    );
    let known = Invocations { by_referrer: 4, total: 7, discrete_referrers: 2 };
    assert_eq!(
        count_invocation(known),
        Ok(Invocations { by_referrer: 5, total: 8, discrete_referrers: 2 })
    );
    let full = Invocations { by_referrer: 4, total: 7, discrete_referrers: u64::MAX };
    assert_eq!(
        count_invocation(full),
        Ok(Invocations { by_referrer: 5, total: 8, discrete_referrers: u64::MAX })
    );
    for at_end in [
        Invocations { by_referrer: u64::MAX, total: 7, discrete_referrers: 2 },
        Invocations { by_referrer: 4, total: u64::MAX, discrete_referrers: 2 },
        Invocations { by_referrer: 0, total: 7, discrete_referrers: u64::MAX },
    ] {
        assert_eq!(count_invocation(at_end), Err(StoreError::CounterOverflow));
    }

    assert_eq!(next_index(None), Ok(0));
    assert_eq!(next_index(Some(0)), Ok(1));
    assert_eq!(next_index(Some(41)), Ok(42));
    assert_eq!(next_index(Some(u64::MAX)), Err(StoreError::CounterOverflow));

    assert_eq!(page_bounds(0, None, None), Ok(None));
    assert_eq!(page_bounds(0, Some(3), Some(1)), Ok(None));
    assert_eq!(page_bounds(5, None, None), Ok(Some((0, 4))));
    assert_eq!(page_bounds(5, Some(2), None), Ok(Some((2, 4))));
    assert_eq!(page_bounds(5, Some(2), Some(1)), Ok(Some((2, 3))));
    assert_eq!(page_bounds(5, Some(2), Some(0)), Ok(Some((2, 2))));
    assert_eq!(page_bounds(5, Some(4), Some(u64::MAX)), Ok(Some((4, 4))));
    assert_eq!(page_bounds(5, Some(5), None), Err(StoreError::IndexOutOfBounds));
    assert_eq!(page_bounds(u64::MAX, Some(u64::MAX - 1), Some(9)), Ok(Some((u64::MAX - 1, u64::MAX - 1))));
}
