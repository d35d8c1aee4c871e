use price_oracle::price_collector::aggregation::AnswerPolicy;
use price_oracle::price_collector::error::ContractError;
use price_oracle::price_collector::registry::FeederRegistry;
use price_oracle::price_collector::state::{
    Answer, CollectorState, Config, PriceFeedInfo, RoundData, RoundDataStatus,
};
use price_oracle::price_collector::store::RoundStore;

fn round(id: u64, value: u64) -> RoundData {
    RoundData {
        started_at_height: id,
        status: RoundDataStatus::Pending,
        answers: vec![Answer { provider: "a".to_string(), value, updated_at_height: id }],
        answered_at_height: 0,
    }
}

fn sorted(mut names: Vec<String>) -> Vec<String> {
    names.sort();
    names
}

#[test]
fn registry_is_a_set() {
    let mut registry = FeederRegistry::new();
    assert_eq!(registry.count(), 0);
    assert!(!registry.is_feeder(&"a".to_string()));

    registry.set_feeder("a".to_string(), true);
    registry.set_feeder("b".to_string(), true);
    registry.set_feeder("a".to_string(), true);
    assert_eq!(registry.count(), 2);
    assert!(registry.is_feeder(&"a".to_string()));
    assert!(registry.is_feeder(&"b".to_string()));
    assert!(!registry.is_feeder(&"c".to_string()));
    assert_eq!(sorted(registry.members()), vec!["a".to_string(), "b".to_string()]);

    registry.set_feeder("c".to_string(), false);
    assert_eq!(registry.count(), 2);
    registry.set_feeder("a".to_string(), false);
    assert_eq!(registry.count(), 1);
    assert!(!registry.is_feeder(&"a".to_string()));
    assert!(registry.is_feeder(&"b".to_string()));
    registry.set_feeder("a".to_string(), false);
    assert_eq!(registry.members(), vec!["b".to_string()]);
}

#[test]
fn store_keeps_rounds_in_order() {
    let mut store = RoundStore::new();
    assert_eq!(store.len(), 0);
    assert_eq!(store.latest(), None);
    assert_eq!(store.get_round(10), Err(ContractError::NotFound));
    assert_eq!(store.range_query(0, u64::MAX), vec![]);

    store.push(round(10, 1));
    store.push(round(400, 2));
    store.push(round(9000, 3));
    assert_eq!(store.len(), 3);
    assert_eq!(store.latest(), Some(&round(9000, 3)));
    assert_eq!(store.get_round(400), Ok(&round(400, 2)));
    assert_eq!(store.get_round(401), Err(ContractError::NotFound));

    store.replace_latest(round(9000, 33));
    assert_eq!(store.len(), 3);
    assert_eq!(store.latest(), Some(&round(9000, 33)));
    assert_eq!(store.get_round(9000), Ok(&round(9000, 33)));
}

#[test]
fn range_query_is_inclusive_and_ascending() {
    let store =
        RoundStore::from_rounds(vec![round(10, 1), round(400, 2), round(700, 3), round(9000, 4)])
            .unwrap();
    assert_eq!(store.range_query(10, 700), vec![
        (10, round(10, 1)),
        (400, round(400, 2)),
        (700, round(700, 3))
    ]);
    assert_eq!(store.range_query(11, 699), vec![(400, round(400, 2))]);
    assert_eq!(store.range_query(400, 400), vec![(400, round(400, 2))]);
    assert_eq!(store.range_query(401, 699), vec![]);
    assert_eq!(store.range_query(700, 10), vec![]);
    assert_eq!(store.range_query(0, u64::MAX).len(), 4);
    assert_eq!(store.range_query(9001, u64::MAX), vec![]);
}

#[test]
fn from_rounds_wants_strictly_ascending_identifiers() {
    assert!(RoundStore::from_rounds(vec![]).is_some());
    assert!(RoundStore::from_rounds(vec![round(5, 1)]).is_some());
    assert!(RoundStore::from_rounds(vec![round(5, 1), round(6, 1)]).is_some());
    assert!(RoundStore::from_rounds(vec![round(5, 1), round(5, 2)]).is_none());
    assert!(RoundStore::from_rounds(vec![round(6, 1), round(5, 2)]).is_none());
    assert!(RoundStore::from_rounds(vec![round(1, 1), round(3, 2), round(2, 3)]).is_none());
}

fn parts(latest_round: u64) -> (Config, PriceFeedInfo) {
    (
        Config { owner: "admin".to_string(), policy: AnswerPolicy::Mean },
        PriceFeedInfo { price_feed: "feed".to_string(), latest_round },
    )
}

#[test]
fn restore_accepts_what_the_engine_stores() {
    let (config, info) = parts(400);
    let deps = CollectorState::restore(
        config,
        info,
        vec!["a".to_string(), "b".to_string(), "a".to_string()],
        vec![round(10, 1), round(400, 2)],
    )
    .unwrap();
    assert_eq!(deps.config.owner, "admin");
    assert_eq!(deps.price_feed_info.latest_round, 400);
    assert_eq!(deps.feeders.count(), 2);
    assert_eq!(deps.round_data.len(), 2);
    assert_eq!(deps.round_data.latest(), Some(&round(400, 2)));

    let (config, info) = parts(77);
    let fresh = CollectorState::restore(config, info, vec![], vec![]).unwrap();
    assert_eq!(fresh.round_data.len(), 0);
    assert_eq!(fresh.price_feed_info.latest_round, 77);
}

#[test]
fn restore_refuses_what_breaks_the_invariant() {
    // the cursor names no round
    let (config, info) = parts(10);
    assert!(CollectorState::restore(config, info, vec![], vec![round(10, 1), round(400, 2)])
        .is_none());
    // identifiers out of order
    let (config, info) = parts(10);
    assert!(CollectorState::restore(config, info, vec![], vec![round(400, 1), round(10, 2)])
        .is_none());
    // a round without observations
    let (config, info) = parts(10);
    let empty = RoundData {
        started_at_height: 10,
        status: RoundDataStatus::Pending,
        answers: vec![],
        answered_at_height: 0,
    };
    assert!(CollectorState::restore(config, info, vec![], vec![empty]).is_none());
    // a feeder twice in one round
    let (config, info) = parts(10);
    let mut twice = round(10, 1);
    twice.answers.push(Answer { provider: "a".to_string(), value: 2, updated_at_height: 11 });
    assert!(CollectorState::restore(config, info, vec![], vec![twice]).is_none());
}
