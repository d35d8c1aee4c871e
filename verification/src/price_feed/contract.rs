//! The operations of the price feed. A refused operation leaves the state
//! untouched.

use crate::chain::{Env, MessageInfo};
use crate::price_feed::error::ContractError;
use crate::price_feed::msg::{
    ExecuteMsg, InstantiateMsg, QueryMsg, QueryResponse, Response, RoundDataResponse,
};
use crate::price_feed::state::{
    is_last_between, last_between, Config, FeedState, FeedView, PriceFeedInfo, RoundData,
    RoundStore,
};
use vstd::prelude::*;

verus! {

/// Height distance between two recordings at the nominal rate of one per
/// minute.
pub const MAX_DIFF_ROUND_ID: u64 = 60;

/// How many such distances a lookup by round identifier reaches back.
pub const WINDOW_MULTIPLIER: u64 = 13;

/// A price feed owned by the sender, controlled by `msg.controller`, without
/// any recorded price.
pub fn instantiate(env: Env, info: MessageInfo, msg: InstantiateMsg) -> (deps: FeedState)
    ensures
        deps.wf(),
        deps@ == (FeedView {
            owner: info.sender@,
            controller: msg.controller@,
            latest_round: env.block.height,
            decimals: msg.decimals,
            description: msg.description@,
            rounds: Map::<u64, RoundData>::empty(),
        }),
{
    FeedState {
        config: Config { owner: info.sender, controller: msg.controller },
        price_feed_info: PriceFeedInfo {
            latest_round: env.block.height,
            decimals: msg.decimals,
            description: msg.description,
        },
        round_data: RoundStore::new(),
    }
}

/// Runs the operation that `msg` asks for.
pub fn execute(deps: &mut FeedState, env: Env, info: MessageInfo, msg: ExecuteMsg) -> (res: Result<
    Response,
    ContractError,
>)
    requires
        old(deps).wf(),
    ensures
        final(deps).wf(),
        match msg {
            ExecuteMsg::UpdateController { controller } => update_controller_ensures(
                old(deps)@,
                info.sender@,
                controller@,
                final(deps)@,
                res,
            ),
            ExecuteMsg::UpdateRoundData { answer } => update_round_data_ensures(
                old(deps)@,
                info.sender@,
                answer,
                env.block.height,
                env.block.time,
                final(deps)@,
                res,
            ),
        },
{
    match msg {
        ExecuteMsg::UpdateController { controller } => update_controller(
            deps,
            env,
            info,
            controller,
        ),
        ExecuteMsg::UpdateRoundData { answer } => update_round_data(deps, env, info, answer),
    }
}

/// Answers the read that `msg` asks for.
pub fn query(deps: &FeedState, env: Env, msg: QueryMsg) -> (res: Result<
    QueryResponse,
    ContractError,
>)
    requires
        deps.wf(),
    ensures
        match msg {
            QueryMsg::LastestRoundData {  } => match latest_round_data(deps@, env.block.height) {
                Some(found) => res matches Ok(QueryResponse::RoundData(r)) && r == found,
                None => res matches Err(e) && e == ContractError::NotFound,
            },
            QueryMsg::RoundData { round_id } => match round_near(deps@, round_id) {
                Some(found) => res matches Ok(QueryResponse::RoundData(r)) && r == found,
                None => res matches Err(e) && e == ContractError::NotFound,
            },
            QueryMsg::Decimals {  } => res matches Ok(QueryResponse::Decimals(d)) && d
                == deps@.decimals,
            QueryMsg::Description {  } => res matches Ok(QueryResponse::Description(d)) && d@
                == deps@.description,
            QueryMsg::Controller {  } => res matches Ok(QueryResponse::Controller(c)) && c@
                == deps@.controller,
        },
{
    match msg {
        QueryMsg::LastestRoundData {  } => match query_lastest_round_data(deps, env) {
            Ok(found) => Ok(QueryResponse::RoundData(found)),
            Err(e) => Err(e),
        },
        QueryMsg::RoundData { round_id } => match query_round_data(deps, round_id) {
            Ok(found) => Ok(QueryResponse::RoundData(found)),
            Err(e) => Err(e),
        },
        QueryMsg::Decimals {  } => Ok(QueryResponse::Decimals(deps.price_feed_info.decimals)),
        QueryMsg::Description {  } => Ok(
            QueryResponse::Description(deps.price_feed_info.description.clone()),
        ),
        QueryMsg::Controller {  } => Ok(QueryResponse::Controller(deps.config.controller.clone())),
    }
}

/// What `update_controller` promises: for the owner the controller is
/// replaced and nothing else changes; for anyone else the call fails with
/// `Unauthorized` and nothing changes.
pub open spec fn update_controller_ensures(
    before: FeedView,
    sender: Seq<char>,
    controller: Seq<char>,
    after: FeedView,
    res: Result<Response, ContractError>,
) -> bool {
    if sender == before.owner {
        res == Ok::<Response, ContractError>(Response::ControllerUpdated) && after == (FeedView {
            controller,
            ..before
        })
    } else {
        res == Err::<Response, ContractError>(ContractError::Unauthorized) && after == before
    }
}

/// Makes the validated address `controller` the only account that may push
/// values. Only the owner may do so.
pub fn update_controller(
    deps: &mut FeedState,
    _env: Env,
    info: MessageInfo,
    controller: String,
) -> (res: Result<Response, ContractError>)
    requires
        old(deps).wf(),
    ensures
        final(deps).wf(),
        update_controller_ensures(old(deps)@, info.sender@, controller@, final(deps)@, res),
{
    if info.sender != deps.config.owner {
        return Err(ContractError::Unauthorized);
    }
    deps.config.controller = controller;
    Ok(Response::ControllerUpdated)
}

/// What `update_round_data` promises: for the controller the value is
/// recorded under the height of the block, with the block's time, and becomes
/// the latest round; for anyone else the call fails with `Unauthorized` and
/// nothing changes.
pub open spec fn update_round_data_ensures(
    before: FeedView,
    sender: Seq<char>,
    answer: u64,
    height: u64,
    time: u64,
    after: FeedView,
    res: Result<Response, ContractError>,
) -> bool {
    if sender == before.controller {
        res == Ok::<Response, ContractError>(
            Response::RoundDataUpdated { round_id: height, answer },
        ) && after == (FeedView {
            latest_round: height,
            rounds: before.rounds.insert(
                height,
                RoundData { answer: answer as u128, updated_at: time },
            ),
            ..before
        })
    } else {
        res == Err::<Response, ContractError>(ContractError::Unauthorized) && after == before
    }
}

/// Records `answer` as the price of the current block. Only the controller
/// may do so. A second recording in one block replaces the first.
pub fn update_round_data(
    deps: &mut FeedState,
    env: Env,
    info: MessageInfo,
    answer: u64,
) -> (res: Result<Response, ContractError>)
    requires
        old(deps).wf(),
    ensures
        final(deps).wf(),
        update_round_data_ensures(
            old(deps)@,
            info.sender@,
            answer,
            env.block.height,
            env.block.time,
            final(deps)@,
            res,
        ),
{
    if info.sender != deps.config.controller {
        return Err(ContractError::Unauthorized);
    }
    let latest_round_id = env.block.height;
    let round_data = RoundData { answer: answer as u128, updated_at: env.block.time };
    deps.round_data.save(latest_round_id, round_data);
    deps.price_feed_info.latest_round = latest_round_id;
    Ok(Response::RoundDataUpdated { round_id: latest_round_id, answer })
}

/// What a read of the latest round at `height` returns: the value recorded
/// under `latest_round`, reported for the round `height`.
pub open spec fn latest_round_data(feed: FeedView, height: u64) -> Option<RoundDataResponse> {
    if feed.rounds.dom().contains(feed.latest_round) {
        Some(
            RoundDataResponse {
                round_id: height,
                answer: feed.rounds[feed.latest_round].answer,
                updated_at: feed.rounds[feed.latest_round].updated_at,
                answered_in_round: feed.latest_round,
            },
        )
    } else {
        None
    }
}

/// What a lookup of `round_id` returns: the value recorded in the most recent
/// round at or before `round_id`, looking back no further than the window.
pub open spec fn round_near(feed: FeedView, round_id: u64) -> Option<RoundDataResponse> {
    match last_between(
        feed.rounds,
        round_id - MAX_DIFF_ROUND_ID * WINDOW_MULTIPLIER,
        round_id as int,
    ) {
        Some(found) => Some(
            RoundDataResponse {
                round_id,
                answer: found.1.answer,
                updated_at: found.1.updated_at,
                answered_in_round: found.0,
            },
        ),
        None => None,
    }
}

/// The value recorded last, reported for the round of the current block;
/// `NotFound` before the first recording.
pub fn query_lastest_round_data(deps: &FeedState, env: Env) -> (res: Result<
    RoundDataResponse,
    ContractError,
>)
    requires
        deps.wf(),
    ensures
        match latest_round_data(deps@, env.block.height) {
            Some(found) => res == Ok::<RoundDataResponse, ContractError>(found),
            None => res == Err::<RoundDataResponse, ContractError>(ContractError::NotFound),
        },
{
    let latest_round_id = deps.price_feed_info.latest_round;
    match deps.round_data.load(latest_round_id) {
        Some(lastest_round_data) => Ok(
            RoundDataResponse {
                round_id: env.block.height,
                answer: lastest_round_data.answer,
                updated_at: lastest_round_data.updated_at,
                answered_in_round: latest_round_id,
            },
        ),
        None => Err(ContractError::NotFound),
    }
}

/// The identifiers that a lookup of `round_id` considers: from thirteen
/// recording distances before `round_id`, or from 0 where that lies below 0,
/// up to `round_id` itself.
pub fn round_window(round_id: u64) -> (window: (u64, u64))
    ensures
        window.1 == round_id,
        window.0 == if round_id >= MAX_DIFF_ROUND_ID * WINDOW_MULTIPLIER {
            round_id - MAX_DIFF_ROUND_ID * WINDOW_MULTIPLIER
        } else {
            0
        },
{
    let lookback: u64 = MAX_DIFF_ROUND_ID * WINDOW_MULTIPLIER;
    let min: u64 = if round_id >= lookback {
        round_id - lookback
    } else {
        0
    };
    (min, round_id)
}

/// The value of the most recent round at or before `round_id`, looking back
/// no further than thirteen recording distances; `NotFound` where no round
/// lies in that range.
pub fn query_round_data(deps: &FeedState, round_id: u64) -> (res: Result<
    RoundDataResponse,
    ContractError,
>)
    requires
        deps.wf(),
    ensures
        match round_near(deps@, round_id) {
            Some(found) => res == Ok::<RoundDataResponse, ContractError>(found),
            None => res == Err::<RoundDataResponse, ContractError>(ContractError::NotFound),
        },
{
    let (min, max) = round_window(round_id);
    proof {
        lemma_last_between_floor(
            deps@.rounds,
            round_id - MAX_DIFF_ROUND_ID * WINDOW_MULTIPLIER,
            round_id as int,
        );
    }
    match deps.round_data.last_between(min, max) {
        Some(round_data) => Ok(
            RoundDataResponse {
                round_id,
                answer: round_data.1.answer,
                updated_at: round_data.1.updated_at,
                answered_in_round: round_data.0,
            },
        ),
        None => Err(ContractError::NotFound),
    }
}

/// Moving a lower bound that is not positive to 0 changes nothing: no
/// identifier is negative.
pub proof fn lemma_last_between_floor(rounds: Map<u64, RoundData>, from: int, to: int)
    ensures
        from <= 0 ==> last_between(rounds, from, to) == last_between(rounds, 0, to),
{
    if from <= 0 {
        assert forall|k: u64|
            is_last_between(rounds, from, to, k) == is_last_between(rounds, 0, to, k) by {}
    }
}

} // verus!
