//! The operations of the collector. Each takes the state it acts on; a
//! refused operation leaves that state untouched.

use crate::chain::{Env, MessageInfo};
use crate::price_collector::aggregation::{
    is_round_expired, outlier_accepts, outlier_bounds, quorum_reached, AnswerPolicy,
    ROUND_EXPIRY_WINDOW, WINDOW_MULTIPLIER,
};
use crate::price_collector::error::ContractError;
use crate::price_collector::msg::{
    ExecuteMsg, InstantiateMsg, Publication, QueryMsg, Response,
};
use crate::price_collector::registry::FeederRegistry;
use crate::price_collector::state::{
    Answer, AnswerView, CollectorState, CollectorView, Config, PriceFeedInfo, RoundData,
    RoundDataStatus, RoundDataView,
};
use crate::price_collector::store::{lemma_rounds_between_step, rounds_between, RoundStore};
use crate::price_collector::transition::{joined_round, opened_round};
use vstd::prelude::*;

verus! {

/// A collector owned by the sender, without feeders and without rounds. It
/// publishes to `msg.price_feed` and finalizes rounds under `policy`.
pub fn instantiate(
    env: Env,
    info: MessageInfo,
    msg: InstantiateMsg,
    policy: AnswerPolicy,
) -> (deps: CollectorState)
    ensures
        deps.wf(),
        deps@ == (CollectorView {
            owner: info.sender@,
            policy,
            price_feed: msg.price_feed@,
            latest_round: env.block.height,
            feeders: Set::<Seq<char>>::empty(),
            rounds: Seq::<RoundDataView>::empty(),
        }),
{
    let deps = CollectorState {
        config: Config { owner: info.sender, policy },
        price_feed_info: PriceFeedInfo {
            price_feed: msg.price_feed,
            latest_round: env.block.height,
        },
        feeders: FeederRegistry::new(),
        round_data: RoundStore::new(),
    };
    proof {
        deps.feeders.lemma_finite();
    }
    deps
}

/// Runs the operation that `msg` asks for.
pub fn execute(
    deps: &mut CollectorState,
    env: Env,
    info: MessageInfo,
    msg: ExecuteMsg,
) -> (res: Result<Response, ContractError>)
    requires
        old(deps).wf(),
    ensures
        final(deps).wf(),
        match msg {
            ExecuteMsg::UpdatePriceFeeder { price_feeder, status } => update_price_feed_ensures(
                old(deps)@,
                info.sender@,
                price_feeder@,
                status,
                final(deps)@,
                res,
            ),
            ExecuteMsg::ProvideRoundData { answer } => update_round_data_ensures(
                old(deps)@,
                info.sender@,
                answer,
                env.block.height,
                final(deps)@,
                res,
            ),
        },
{
    match msg {
        ExecuteMsg::UpdatePriceFeeder { price_feeder, status } => update_price_feed(
            deps,
            env,
            info,
            price_feeder,
            status,
        ),
        ExecuteMsg::ProvideRoundData { answer } => update_round_data(deps, env, info, answer),
    }
}

/// Answers the read that `msg` asks for.
pub fn query(deps: &CollectorState, env: Env, msg: QueryMsg) -> (res: Result<
    RoundData,
    ContractError,
>)
    ensures
        match msg {
            QueryMsg::LastestRoundData {  } => read_ensures(deps@.latest_round_data(), res),
            QueryMsg::RoundData { round_id } => read_ensures(deps@.round_near(round_id), res),
        },
{
    match msg {
        QueryMsg::LastestRoundData {  } => query_lastest_round_data(deps, env),
        QueryMsg::RoundData { round_id } => query_round_data(deps, round_id),
    }
}

/// What `update_price_feed` promises: for the owner the registry takes the
/// requested state and nothing else changes; for anyone else the call fails
/// with `Unauthorized` and nothing changes.
pub open spec fn update_price_feed_ensures(
    before: CollectorView,
    sender: Seq<char>,
    price_feeder: Seq<char>,
    status: bool,
    after: CollectorView,
    res: Result<Response, ContractError>,
) -> bool {
    if sender == before.owner {
        res == Ok::<Response, ContractError>(Response::PriceFeederUpdated) && after
            == before.set_feeder(price_feeder, status)
    } else {
        res == Err::<Response, ContractError>(ContractError::Unauthorized) && after == before
    }
}

/// Authorizes the validated address `price_feeder` as a feeder (`status`
/// true) or withdraws its authorization (`status` false). Only the owner may
/// do so.
pub fn update_price_feed(
    deps: &mut CollectorState,
    _env: Env,
    info: MessageInfo,
    price_feeder: String,
    status: bool,
) -> (res: Result<Response, ContractError>)
    requires
        old(deps).wf(),
    ensures
        final(deps).wf(),
        update_price_feed_ensures(
            old(deps)@,
            info.sender@,
            price_feeder@,
            status,
            final(deps)@,
            res,
        ),
{
    if info.sender != deps.config.owner {
        return Err(ContractError::Unauthorized);
    }
    deps.feeders.set_feeder(price_feeder, status);
    proof {
        deps.feeders.lemma_finite();
    }
    Ok(Response::PriceFeederUpdated)
}

/// What `update_round_data` promises: a refused submission fails with the
/// error that the lifecycle names and changes nothing; an accepted one moves
/// the state as the lifecycle says and reports accordingly.
pub open spec fn update_round_data_ensures(
    before: CollectorView,
    sender: Seq<char>,
    answer: u64,
    height: u64,
    after: CollectorView,
    res: Result<Response, ContractError>,
) -> bool {
    match before.submit_error(sender, height) {
        Some(e) => res == Err::<Response, ContractError>(e) && after == before,
        None => res == Ok::<Response, ContractError>(
            before.submit_response(sender, answer, height),
        ) && after == before.submit(sender, answer, height),
    }
}

/// Records the observation `answer` of the sender at the height of the
/// current block.
///
/// An unauthorized sender is refused. Where no round exists or the latest one
/// is past its expiry window, the observation opens a new pending round at
/// this height. Otherwise it joins the latest round, unless that round is no
/// longer pending (`RoundEnded`) or already holds an observation of the
/// sender (`InvalidUpdate`). An observation that brings the round to a quorum
/// of the feeders authorized now finalizes it: the round is answered if the
/// value lies within the outlier band of all values collected, and rejected
/// if not. An answered round reports its finalized value for publication.
pub fn update_round_data(
    deps: &mut CollectorState,
    env: Env,
    info: MessageInfo,
    answer: u64,
) -> (res: Result<Response, ContractError>)
    requires
        old(deps).wf(),
    ensures
        final(deps).wf(),
        update_round_data_ensures(
            old(deps)@,
            info.sender@,
            answer,
            env.block.height,
            final(deps)@,
            res,
        ),
{
    if !deps.feeders.is_feeder(&info.sender) {
        return Err(ContractError::Unauthorized);
    }
    let height = env.block.height;
    let latest_round_id = deps.price_feed_info.latest_round;
    let ghost before = deps@;
    let ghost sender = info.sender@;

    // the round that the observation joins: the latest one, unless it is
    // past its window or there is none
    let joinable = if is_round_expired(latest_round_id, height) {
        None
    } else {
        deps.round_data.latest()
    };
    if let Some(round) = joinable {
        match round.status {
            RoundDataStatus::Pending => {},
            _ => {
                return Err(ContractError::RoundEnded);
            },
        }
        if round.is_answered(info.sender.clone()) {
            return Err(ContractError::InvalidUpdate);
        }
        let mut round_data = round.clone();
        let ghost current = before.rounds.last();
        let ghost added = AnswerView { provider: sender, value: answer, updated_at_height: height };
        assert(before.rounds[before.rounds.len() - 1].well_formed());

        round_data.answers.push(
            Answer { provider: info.sender, value: answer, updated_at_height: height },
        );
        assert(round_data@.answers =~= current.answers.push(added));

        let feeders = deps.feeders.count();
        let mut publish: Option<u64> = None;
        if quorum_reached(round_data.current_number_answeres(), feeders) {
            let bounds = outlier_bounds(&round_data.answers);
            let accepted = outlier_accepts(bounds.0, bounds.1, answer);
            round_data.status = match round_data.status.finalize(accepted) {
                Ok(status) => status,
                Err(e) => {
                    return Err(e);
                },
            };
            round_data.answered_at_height = height;
            if accepted {
                publish = Some(round_data.finalized_value(deps.config.policy));
            }
        }
        proof {
            let joined = joined_round(current, before.feeders.len(), sender, answer, height);
            assert(round_data@.answers == joined.answers);
            assert(round_data@ == joined);
            assert(joined.providers_distinct()) by {
                assert forall|i: int, j: int| 0 <= i < j < joined.answers.len() implies (
                #[trigger] joined.answers[i]).provider != (
                #[trigger] joined.answers[j]).provider by {
                    if j < current.answers.len() {
                        assert(joined.answers[i] == current.answers[i]);
                        assert(joined.answers[j] == current.answers[j]);
                    } else {
                        assert(joined.answers[i] == current.answers[i]);
                    }
                }
            }
            assert(joined.well_formed());
        }
        deps.round_data.replace_latest(round_data);
        proof {
            let after = deps@;
            assert(after == before.submit(sender, answer, height));
            assert forall|i: int| 0 <= i < after.rounds.len() implies (
            #[trigger] after.rounds[i]).well_formed() by {
                if i < after.rounds.len() - 1 {
                    assert(after.rounds[i] == before.rounds[i]);
                }
            }
        }
        Ok(Response::RoundDataUpdated { round_id: latest_round_id, answer, publish })
    } else {
        let mut answers: Vec<Answer> = Vec::new();
        answers.push(Answer { provider: info.sender, value: answer, updated_at_height: height });
        let round_data = RoundData {
            started_at_height: height,
            status: RoundDataStatus::Pending,
            answers,
            answered_at_height: 0,
        };
        proof {
            let opened = opened_round(sender, answer, height);
            assert(round_data@.answers =~= opened.answers);
            assert(round_data@ == opened);
            assert(opened.well_formed());
        }
        deps.round_data.push(round_data);
        deps.price_feed_info.latest_round = height;
        proof {
            let after = deps@;
            assert(after == before.submit(sender, answer, height));
            assert forall|i: int| 0 <= i < after.rounds.len() implies (
            #[trigger] after.rounds[i]).well_formed() by {
                if i < after.rounds.len() - 1 {
                    assert(after.rounds[i] == before.rounds[i]);
                }
            }
        }
        Ok(Response::RoundDataUpdated { round_id: height, answer, publish: None })
    }
}

/// The push that publishes the finalized value `value`: it asks the
/// collector's price feed to record `value` as its next answer.
pub fn publish(deps: &CollectorState, value: u64) -> (res: Publication)
    ensures
        res.contract_addr@ == deps@.price_feed,
        res.msg == (crate::price_feed::msg::ExecuteMsg::UpdateRoundData { answer: value }),
{
    Publication {
        contract_addr: deps.price_feed_info.price_feed.clone(),
        msg: crate::price_feed::msg::ExecuteMsg::UpdateRoundData { answer: value },
    }
}

/// What a read promises: the round that the state determines, or `NotFound`
/// where it determines none.
pub open spec fn read_ensures(
    found: Option<RoundDataView>,
    res: Result<RoundData, ContractError>,
) -> bool {
    match found {
        Some(round) => res is Ok && res->Ok_0@ == round,
        None => res == Err::<RoundData, ContractError>(ContractError::NotFound),
    }
}

/// A snapshot of the round opened last; `NotFound` before the first
/// observation.
pub fn query_lastest_round_data(deps: &CollectorState, _env: Env) -> (res: Result<
    RoundData,
    ContractError,
>)
    ensures
        read_ensures(deps@.latest_round_data(), res),
{
    match deps.round_data.latest() {
        Some(round) => Ok(round.clone()),
        None => Err(ContractError::NotFound),
    }
}

/// Moving a lower bound that is not positive to 0 changes nothing: no
/// identifier is negative.
pub proof fn lemma_rounds_between_floor(rounds: Seq<RoundDataView>, from: int, to: int)
    requires
        from <= 0,
    ensures
        rounds_between(rounds, from, to) == rounds_between(rounds, 0, to),
    decreases rounds.len(),
{
    if rounds.len() == 0 {
        reveal(Seq::filter);
    } else {
        lemma_rounds_between_floor(rounds.drop_last(), from, to);
        lemma_rounds_between_step(rounds, from, to);
        lemma_rounds_between_step(rounds, 0, to);
    }
}

/// The identifiers that a lookup of `round_id` considers: from thirteen
/// expiry windows before `round_id`, or from 0 where that lies below 0, up to
/// `round_id` itself.
pub fn round_window(round_id: u64) -> (window: (u64, u64))
    ensures
        window.1 == round_id,
        window.0 == if round_id >= WINDOW_MULTIPLIER * ROUND_EXPIRY_WINDOW {
            round_id - WINDOW_MULTIPLIER * ROUND_EXPIRY_WINDOW
        } else {
            0
        },
{
    let lookback: u64 = WINDOW_MULTIPLIER * ROUND_EXPIRY_WINDOW;
    let min: u64 = if round_id >= lookback {
        round_id - lookback
    } else {
        0
    };
    (min, round_id)
}

/// A snapshot of the most recent round at or before `round_id`, looking back
/// no further than thirteen expiry windows; `NotFound` where no round lies in
/// that range.
pub fn query_round_data(deps: &CollectorState, round_id: u64) -> (res: Result<
    RoundData,
    ContractError,
>)
    ensures
        read_ensures(deps@.round_near(round_id), res),
{
    let (min, max) = round_window(round_id);
    proof {
        if round_id < WINDOW_MULTIPLIER * ROUND_EXPIRY_WINDOW {
            lemma_rounds_between_floor(
                deps@.rounds,
                round_id - WINDOW_MULTIPLIER * ROUND_EXPIRY_WINDOW,
                round_id as int,
            );
        }
    }
    let mut binding = deps.round_data.range_query(min, max);
    let ghost found = binding@.map_values(|p: (u64, RoundData)| p.1@);
    match binding.pop() {
        Some(round_data) => {
            assert(found.last() == round_data.1@);
            Ok(round_data.1)
        },
        None => Err(ContractError::NotFound),
    }
}

} // verus!
