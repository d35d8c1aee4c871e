use price_oracle::chain::{BlockInfo, ContractInfo, Env, MessageInfo};
use price_oracle::price_collector::aggregation::AnswerPolicy;
use price_oracle::price_collector::contract::{
    execute, instantiate, publish, query, query_lastest_round_data, query_round_data,
    round_window, update_price_feed, update_round_data,
};
use price_oracle::price_collector::error::ContractError;
use price_oracle::price_collector::msg::{
    ExecuteMsg, InstantiateMsg, Publication, QueryMsg, Response,
};
use price_oracle::price_collector::state::{Answer, CollectorState, RoundData, RoundDataStatus};

const ADMIN: &str = "aura1000000000000000000000000000000000admin";
const USER1: &str = "aura1000000000000000000000000000000000user1";
const PRICE_FEED: &str = "aura1000000000000000000000000000000pricefeed";

fn env_at(height: u64) -> Env {
    Env {
        block: BlockInfo { height, time: 1_571_797_419_879_305_533 },
        contract: ContractInfo {
            address: "aura100000000000000000000000000000collector".to_string(),
        },
    }
}

fn from(sender: &str) -> MessageInfo {
    MessageInfo { sender: sender.to_string(), funds: vec![] }
}

fn collector(policy: AnswerPolicy, feeders: &[&str]) -> CollectorState {
    let mut deps = instantiate(
        env_at(1),
        from(ADMIN),
        InstantiateMsg { price_feed: PRICE_FEED.to_string(), decimals: 6 },
        policy,
    );
    for feeder in feeders {
        let res = update_price_feed(&mut deps, env_at(1), from(ADMIN), feeder.to_string(), true);
        assert_eq!(res, Ok(Response::PriceFeederUpdated));
    }
    deps
}

fn answer(provider: &str, value: u64, height: u64) -> Answer {
    Answer { provider: provider.to_string(), value, updated_at_height: height }
}

fn ids(deps: &CollectorState) -> Vec<u64> {
    deps.round_data.range_query(0, u64::MAX).into_iter().map(|entry| entry.0).collect()
}

#[test]
fn admin_can_provide_round_rata() {
    let mut deps = collector(AnswerPolicy::Mean, &[ADMIN]);

    let res = execute(
        &mut deps,
        env_at(12365),
        from(USER1),
        ExecuteMsg::ProvideRoundData { answer: 100000u64 },
    );
    assert!(res.is_err());

    let res = execute(
        &mut deps,
        env_at(12365),
        from(ADMIN),
        ExecuteMsg::ProvideRoundData { answer: 100000u64 },
    );
    println!("{:?}", res);
    assert!(res.is_ok());
}

#[test]
fn instantiate_starts_without_feeders_and_rounds() {
    let deps = collector(AnswerPolicy::Mean, &[]);
    assert_eq!(deps.config.owner, ADMIN);
    assert_eq!(deps.config.policy, AnswerPolicy::Mean);
    assert_eq!(deps.price_feed_info.price_feed, PRICE_FEED);
    assert_eq!(deps.price_feed_info.latest_round, 1);
    assert_eq!(deps.feeders.count(), 0);
    assert_eq!(deps.round_data.len(), 0);
    assert_eq!(query_lastest_round_data(&deps, env_at(2)), Err(ContractError::NotFound));
}

#[test]
fn only_owner_sets_feeders() {
    let mut deps = collector(AnswerPolicy::Mean, &[]);
    let res = update_price_feed(&mut deps, env_at(2), from(USER1), USER1.to_string(), true);
    assert_eq!(res, Err(ContractError::Unauthorized));
    assert!(!deps.feeders.is_feeder(&USER1.to_string()));

    let res = update_price_feed(&mut deps, env_at(2), from(ADMIN), USER1.to_string(), true);
    assert_eq!(res, Ok(Response::PriceFeederUpdated));
    assert!(deps.feeders.is_feeder(&USER1.to_string()));
    assert_eq!(deps.feeders.count(), 1);

    // asking again for the state the feeder already has changes nothing
    let res = update_price_feed(&mut deps, env_at(2), from(ADMIN), USER1.to_string(), true);
    assert_eq!(res, Ok(Response::PriceFeederUpdated));
    assert_eq!(deps.feeders.count(), 1);

    let res = execute(
        &mut deps,
        env_at(3),
        from(ADMIN),
        ExecuteMsg::UpdatePriceFeeder { price_feeder: USER1.to_string(), status: false },
    );
    assert_eq!(res, Ok(Response::PriceFeederUpdated));
    assert!(!deps.feeders.is_feeder(&USER1.to_string()));
    assert_eq!(deps.feeders.count(), 0);

    let res = update_price_feed(&mut deps, env_at(2), from(ADMIN), USER1.to_string(), false);
    assert_eq!(res, Ok(Response::PriceFeederUpdated));
    assert_eq!(deps.feeders.count(), 0);
}

#[test]
fn unauthorized_feeder_is_refused_and_nothing_changes() {
    let mut deps = collector(AnswerPolicy::Mean, &["a"]);
    let res = update_round_data(&mut deps, env_at(10), from("b"), 100);
    assert_eq!(res, Err(ContractError::Unauthorized));
    assert_eq!(deps.round_data.len(), 0);
    assert_eq!(deps.price_feed_info.latest_round, 1);
}

#[test]
fn end_to_end_three_feeders_mean_policy() {
    let mut deps = collector(AnswerPolicy::Mean, &["A", "B", "C"]);

    let res = update_round_data(&mut deps, env_at(10), from("A"), 100);
    assert_eq!(res, Ok(Response::RoundDataUpdated { round_id: 10, answer: 100, publish: None }));
    assert_eq!(
        query_lastest_round_data(&deps, env_at(10)),
        Ok(RoundData {
            started_at_height: 10,
            status: RoundDataStatus::Pending,
            answers: vec![answer("A", 100, 10)],
            answered_at_height: 0,
        })
    );

    let res = update_round_data(&mut deps, env_at(11), from("B"), 100);
    assert_eq!(res, Ok(Response::RoundDataUpdated { round_id: 10, answer: 100, publish: None }));
    let round = query_lastest_round_data(&deps, env_at(11)).unwrap();
    assert_eq!(round.status, RoundDataStatus::Pending);
    assert_eq!(round.current_number_answeres(), 2);

    let res = update_round_data(&mut deps, env_at(12), from("C"), 1000);
    assert_eq!(
        res,
        Ok(Response::RoundDataUpdated { round_id: 10, answer: 1000, publish: Some(400) })
    );
    assert_eq!(
        query_lastest_round_data(&deps, env_at(12)),
        Ok(RoundData {
            started_at_height: 10,
            status: RoundDataStatus::Answered,
            answers: vec![answer("A", 100, 10), answer("B", 100, 11), answer("C", 1000, 12)],
            answered_at_height: 12,
        })
    );
    assert_eq!(deps.price_feed_info.latest_round, 10);
    assert_eq!(ids(&deps), vec![10]);
}

#[test]
fn end_to_end_three_feeders_most_recent_policy() {
    let mut deps = collector(AnswerPolicy::MostRecent, &["A", "B", "C"]);
    update_round_data(&mut deps, env_at(10), from("A"), 100).unwrap();
    update_round_data(&mut deps, env_at(11), from("B"), 100).unwrap();
    let res = update_round_data(&mut deps, env_at(12), from("C"), 1000);
    assert_eq!(
        res,
        Ok(Response::RoundDataUpdated { round_id: 10, answer: 1000, publish: Some(1000) })
    );
}

#[test]
fn answered_round_accepts_no_further_observation() {
    let mut deps = collector(AnswerPolicy::Mean, &["A", "B", "C", "D"]);
    update_round_data(&mut deps, env_at(10), from("A"), 100).unwrap();
    update_round_data(&mut deps, env_at(11), from("B"), 100).unwrap();
    // 3 of 4: 9 > 8
    let res = update_round_data(&mut deps, env_at(12), from("C"), 105);
    assert_eq!(
        res,
        Ok(Response::RoundDataUpdated { round_id: 10, answer: 105, publish: Some(101) })
    );
    let before = query_lastest_round_data(&deps, env_at(12)).unwrap();
    let res = update_round_data(&mut deps, env_at(13), from("D"), 100);
    assert_eq!(res, Err(ContractError::RoundEnded));
    assert_eq!(query_lastest_round_data(&deps, env_at(13)).unwrap(), before);

    // once the window has passed, the next submission opens a new round
    let res = update_round_data(&mut deps, env_at(310), from("D"), 100);
    assert_eq!(res, Ok(Response::RoundDataUpdated { round_id: 310, answer: 100, publish: None }));
    assert_eq!(ids(&deps), vec![10, 310]);
}

#[test]
fn duplicate_vote_is_rejected_and_count_unchanged() {
    let mut deps = collector(AnswerPolicy::Mean, &["A", "B", "C"]);
    update_round_data(&mut deps, env_at(10), from("A"), 100).unwrap();
    let before = query_lastest_round_data(&deps, env_at(10)).unwrap();
    assert_eq!(before.current_number_answeres(), 1);

    let res = update_round_data(&mut deps, env_at(11), from("A"), 101);
    assert_eq!(res, Err(ContractError::InvalidUpdate));
    let after = query_lastest_round_data(&deps, env_at(11)).unwrap();
    assert_eq!(after.current_number_answeres(), 1);
    assert_eq!(after, before);
}

#[test]
fn round_boundary_both_sides() {
    let mut deps = collector(AnswerPolicy::Mean, &["A", "B", "C", "D", "E"]);
    update_round_data(&mut deps, env_at(1000), from("A"), 100).unwrap();

    // one short of the window: joins round 1000
    let res = update_round_data(&mut deps, env_at(1299), from("B"), 100);
    assert_eq!(res, Ok(Response::RoundDataUpdated { round_id: 1000, answer: 100, publish: None }));
    assert_eq!(ids(&deps), vec![1000]);
    assert_eq!(deps.price_feed_info.latest_round, 1000);

    // at the window: opens round 1300
    let res = update_round_data(&mut deps, env_at(1300), from("C"), 100);
    assert_eq!(res, Ok(Response::RoundDataUpdated { round_id: 1300, answer: 100, publish: None }));
    assert_eq!(ids(&deps), vec![1000, 1300]);
    assert_eq!(deps.price_feed_info.latest_round, 1300);
    let latest = query_lastest_round_data(&deps, env_at(1300)).unwrap();
    assert_eq!(latest.answers, vec![answer("C", 100, 1300)]);
    assert_eq!(latest.status, RoundDataStatus::Pending);
    assert_eq!(latest.answered_at_height, 0);
}

#[test]
fn heights_below_the_window_and_below_the_latest_round() {
    let mut deps = collector(AnswerPolicy::Mean, &["A", "B", "C", "D", "E"]);
    // the first observation opens a round whatever the height, also below the window
    let res = update_round_data(&mut deps, env_at(5), from("A"), 7);
    assert_eq!(res, Ok(Response::RoundDataUpdated { round_id: 5, answer: 7, publish: None }));
    // a height below the round's own is not past the window: it joins
    let res = update_round_data(&mut deps, env_at(3), from("B"), 7);
    assert_eq!(res, Ok(Response::RoundDataUpdated { round_id: 5, answer: 7, publish: None }));
    assert_eq!(ids(&deps), vec![5]);
    let res = update_round_data(&mut deps, env_at(304), from("C"), 7);
    assert_eq!(res, Ok(Response::RoundDataUpdated { round_id: 5, answer: 7, publish: None }));
    let res = update_round_data(&mut deps, env_at(305), from("D"), 7);
    assert_eq!(res, Ok(Response::RoundDataUpdated { round_id: 305, answer: 7, publish: None }));
}

#[test]
fn round_ids_strictly_increase() {
    let mut deps = collector(AnswerPolicy::Mean, &["A", "B", "C"]);
    let heights = [10u64, 11, 400, 401, 699, 700, 10_000, 10_299, 10_300, u64::MAX];
    let feeders = ["A", "B", "A", "B", "C", "A", "B", "C", "A", "B"];
    for (height, feeder) in heights.iter().zip(feeders.iter()) {
        let _ = update_round_data(&mut deps, env_at(*height), from(feeder), 50);
        let stored = ids(&deps);
        assert!(stored.windows(2).all(|pair| pair[0] < pair[1]));
        assert_eq!(deps.price_feed_info.latest_round, *stored.last().unwrap());
    }
    assert_eq!(ids(&deps), vec![10, 400, 700, 10_000, 10_300, u64::MAX]);
}

#[test]
fn latest_round_read_is_idempotent() {
    let mut deps = collector(AnswerPolicy::Mean, &["A", "B", "C"]);
    assert_eq!(
        query_lastest_round_data(&deps, env_at(1)),
        query_lastest_round_data(&deps, env_at(1))
    );
    update_round_data(&mut deps, env_at(10), from("A"), 100).unwrap();
    let first = query(&deps, env_at(10), QueryMsg::LastestRoundData {});
    let second = query(&deps, env_at(11), QueryMsg::LastestRoundData {});
    assert!(first.is_ok());
    assert_eq!(first, second);
}

#[test]
fn single_feeder_round_stays_pending() {
    let mut deps = collector(AnswerPolicy::Mean, &["A"]);
    let res = update_round_data(&mut deps, env_at(10), from("A"), 100);
    assert_eq!(res, Ok(Response::RoundDataUpdated { round_id: 10, answer: 100, publish: None }));
    let round = query_lastest_round_data(&deps, env_at(10)).unwrap();
    assert_eq!(round.status, RoundDataStatus::Pending);
}

#[test]
fn quorum_follows_the_registry_of_the_moment() {
    let mut deps = collector(AnswerPolicy::Mean, &["A", "B", "C", "D", "E", "F"]);
    update_round_data(&mut deps, env_at(10), from("A"), 10).unwrap();
    update_round_data(&mut deps, env_at(11), from("B"), 20).unwrap();
    // 3 of 6 is no quorum
    let res = update_round_data(&mut deps, env_at(12), from("C"), 30);
    assert_eq!(res, Ok(Response::RoundDataUpdated { round_id: 10, answer: 30, publish: None }));
    // two feeders leave: 4 answers of 4 feeders is one
    for gone in ["E", "F"] {
        update_price_feed(&mut deps, env_at(12), from(ADMIN), gone.to_string(), false).unwrap();
    }
    let res = update_round_data(&mut deps, env_at(13), from("D"), 41);
    assert_eq!(
        res,
        Ok(Response::RoundDataUpdated { round_id: 10, answer: 41, publish: Some(25) })
    );
}

#[test]
fn round_lookup_reaches_back_thirteen_windows() {
    let mut deps = collector(AnswerPolicy::Mean, &["A", "B", "C"]);
    assert_eq!(query_round_data(&deps, 5000), Err(ContractError::NotFound));
    update_round_data(&mut deps, env_at(10), from("A"), 1).unwrap();
    update_round_data(&mut deps, env_at(400), from("A"), 2).unwrap();
    update_round_data(&mut deps, env_at(9000), from("A"), 3).unwrap();

    // below the first round: nothing
    assert_eq!(query_round_data(&deps, 9), Err(ContractError::NotFound));
    // the window of a small identifier starts at 0
    assert_eq!(query_round_data(&deps, 10).unwrap().started_at_height, 10);
    assert_eq!(query_round_data(&deps, 399).unwrap().started_at_height, 10);
    // the last round at or before the identifier
    assert_eq!(query_round_data(&deps, 400).unwrap().started_at_height, 400);
    assert_eq!(query_round_data(&deps, 4300).unwrap().started_at_height, 400);
    // 4301 - 3900 = 401: round 400 has left the window
    assert_eq!(query_round_data(&deps, 4301), Err(ContractError::NotFound));
    assert_eq!(
        query(&deps, env_at(9000), QueryMsg::RoundData { round_id: 12_900 }),
        Ok(RoundData {
            started_at_height: 9000,
            status: RoundDataStatus::Pending,
            answers: vec![answer("A", 3, 9000)],
            answered_at_height: 0,
        })
    );
    assert_eq!(query_round_data(&deps, 12_901), Err(ContractError::NotFound));
    assert_eq!(query_round_data(&deps, u64::MAX), Err(ContractError::NotFound));
}

#[test]
fn lookup_window_is_thirteen_expiry_windows() {
    assert_eq!(round_window(10_000), (6_100, 10_000));
    assert_eq!(round_window(3_900), (0, 3_900));
    assert_eq!(round_window(3_899), (0, 3_899));
    assert_eq!(round_window(0), (0, 0));
    assert_eq!(round_window(u64::MAX), (u64::MAX - 3_900, u64::MAX));
}

#[test]
fn a_finalized_value_is_pushed_to_the_price_feed() {
    let deps = collector(AnswerPolicy::Mean, &["A"]);
    assert_eq!(
        publish(&deps, 400),
        Publication {
            contract_addr: PRICE_FEED.to_string(),
            msg: price_oracle::price_feed::msg::ExecuteMsg::UpdateRoundData { answer: 400 },
        }
    );
}

#[test]
fn a_round_is_finalized_once() {
    assert_eq!(RoundDataStatus::Pending.finalize(true), Ok(RoundDataStatus::Answered));
    assert_eq!(RoundDataStatus::Pending.finalize(false), Ok(RoundDataStatus::Rejected));
    for terminal in [RoundDataStatus::Answered, RoundDataStatus::Rejected] {
        assert_eq!(terminal.finalize(true), Err(ContractError::RoundEnded));
        assert_eq!(terminal.finalize(false), Err(ContractError::RoundEnded));
    }
}

#[test]
fn a_rejected_round_accepts_no_further_observation() {
    let rejected = RoundData {
        started_at_height: 10,
        status: RoundDataStatus::Rejected,
        answers: vec![answer("A", 100, 10), answer("B", 1, 11)],
        answered_at_height: 11,
    };
    let mut deps = CollectorState::restore(
        price_oracle::price_collector::state::Config {
            owner: ADMIN.to_string(),
            policy: AnswerPolicy::Mean,
        },
        price_oracle::price_collector::state::PriceFeedInfo {
            price_feed: PRICE_FEED.to_string(),
            latest_round: 10,
        },
        vec!["A".to_string(), "B".to_string(), "C".to_string()],
        vec![rejected],
    )
    .unwrap();
    let res = update_round_data(&mut deps, env_at(12), from("C"), 100);
    assert_eq!(res, Err(ContractError::RoundEnded));
    assert_eq!(query_lastest_round_data(&deps, env_at(12)).unwrap().answers.len(), 2);
}
