//! The round lifecycle as a function on mathematical states: what one
//! submission does to the collector, and what the two reads return.

use crate::price_collector::aggregation::{
    max_value, min_value, quorum, round_expired, values_of, within_outlier_band,
    ROUND_EXPIRY_WINDOW, WINDOW_MULTIPLIER,
};
use crate::price_collector::error::ContractError;
use crate::price_collector::msg::Response;
use crate::price_collector::state::{AnswerView, CollectorView, RoundDataStatus, RoundDataView};
use crate::price_collector::store::rounds_between;
use vstd::prelude::*;

verus! {

/// The round that a first observation opens at `height`.
pub open spec fn opened_round(feeder: Seq<char>, value: u64, height: u64) -> RoundDataView {
    RoundDataView {
        started_at_height: height,
        status: RoundDataStatus::Pending,
        answers: seq![AnswerView { provider: feeder, value, updated_at_height: height }],
        answered_at_height: 0,
    }
}

/// `round` after one more observation, judged against a registry of `feeders`
/// authorized feeders. Short of a quorum only the observation is added. At a
/// quorum the round becomes terminal at `height`: answered where `value` lies
/// within the outlier band of all values collected, itself included, and
/// rejected otherwise.
pub open spec fn joined_round(
    round: RoundDataView,
    feeders: nat,
    feeder: Seq<char>,
    value: u64,
    height: u64,
) -> RoundDataView {
    let answers = round.answers.push(
        AnswerView { provider: feeder, value, updated_at_height: height },
    );
    if quorum(answers.len(), feeders) {
        let values = values_of(answers);
        RoundDataView {
            started_at_height: round.started_at_height,
            status: if within_outlier_band(min_value(values), max_value(values), value) {
                RoundDataStatus::Answered
            } else {
                RoundDataStatus::Rejected
            },
            answers,
            answered_at_height: height,
        }
    } else {
        RoundDataView { answers, ..round }
    }
}

impl CollectorView {
    /// A submission at `height` opens a new round: no round exists yet, or the
    /// latest one is past its expiry window.
    pub open spec fn opens_round(self, height: u64) -> bool {
        self.rounds.len() == 0 || round_expired(self.latest_round, height)
    }

    /// Why a submission by `feeder` at `height` is refused, if it is. The
    /// checks come in this order: the feeder's authorization, then, for a
    /// submission that joins the latest round, that the round is pending and
    /// that the feeder has not answered in it.
    pub open spec fn submit_error(self, feeder: Seq<char>, height: u64) -> Option<ContractError> {
        if !self.feeders.contains(feeder) {
            Some(ContractError::Unauthorized)
        } else if self.opens_round(height) {
            None
        } else if self.rounds.last().status != RoundDataStatus::Pending {
            Some(ContractError::RoundEnded)
        } else if self.rounds.last().is_answered(feeder) {
            Some(ContractError::InvalidUpdate)
        } else {
            None
        }
    }

    /// The state after an accepted submission. A submission that opens a round
    /// appends it and moves `latest_round` to `height`; one that joins the
    /// latest round puts the joined round in its place.
    pub open spec fn submit(self, feeder: Seq<char>, value: u64, height: u64) -> CollectorView {
        if self.opens_round(height) {
            CollectorView {
                latest_round: height,
                rounds: self.rounds.push(opened_round(feeder, value, height)),
                ..self
            }
        } else {
            CollectorView {
                rounds: self.rounds.drop_last().push(
                    joined_round(self.rounds.last(), self.feeders.len(), feeder, value, height),
                ),
                ..self
            }
        }
    }

    /// What an accepted submission reports: the round it went to, the value
    /// echoed, and, where it finalized the round as answered, the value to
    /// publish under the collector's policy.
    pub open spec fn submit_response(self, feeder: Seq<char>, value: u64, height: u64) -> Response {
        if self.opens_round(height) {
            Response::RoundDataUpdated { round_id: height, answer: value, publish: None }
        } else {
            let round = joined_round(self.rounds.last(), self.feeders.len(), feeder, value, height);
            Response::RoundDataUpdated {
                round_id: round.started_at_height,
                answer: value,
                publish: if round.status == RoundDataStatus::Answered {
                    Some(round.finalized_value(self.policy) as u64)
                } else {
                    None
                },
            }
        }
    }

    /// The state after the owner sets the authorization of `feeder`.
    pub open spec fn set_feeder(self, feeder: Seq<char>, authorized: bool) -> CollectorView {
        CollectorView {
            feeders: if authorized {
                self.feeders.insert(feeder)
            } else {
                self.feeders.remove(feeder)
            },
            ..self
        }
    }

    /// The round opened last, if any round exists.
    pub open spec fn latest_round_data(self) -> Option<RoundDataView> {
        if self.rounds.len() == 0 {
            None
        } else {
            Some(self.rounds.last())
        }
    }

    /// The most recent round whose identifier is at most `round_id` and at
    /// least `round_id` less the lookback window, if there is one.
    pub open spec fn round_near(self, round_id: u64) -> Option<RoundDataView> {
        let found = rounds_between(
            self.rounds,
            round_id - WINDOW_MULTIPLIER * ROUND_EXPIRY_WINDOW,
            round_id as int,
        );
        if found.len() == 0 {
            None
        } else {
            Some(found.last())
        }
    }
}

} // verus!
