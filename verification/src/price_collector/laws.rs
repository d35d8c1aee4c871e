//! What holds of the round lifecycle on every state and every input.

use crate::price_collector::aggregation::{
    lemma_max_value, lemma_min_value, max_value, min_value, quorum, values_of,
    within_outlier_band, ROUND_EXPIRY_WINDOW, WINDOW_MULTIPLIER,
};
use crate::price_collector::contract::read_ensures;
use crate::price_collector::error::ContractError;
use crate::price_collector::msg::Response;
use crate::price_collector::state::{
    AnswerView, CollectorState, CollectorView, RoundData, RoundDataStatus, RoundDataView,
};
use crate::price_collector::store::{ids_increasing, lemma_rounds_between, rounds_between};
use crate::price_collector::transition::{joined_round, opened_round};
use vstd::prelude::*;

verus! {

/// One submission as the lifecycle sees it.
pub struct Submission {
    pub feeder: Seq<char>,
    pub value: u64,
    pub height: u64,
}

/// The state after the submissions `subs`, taken in order. A refused
/// submission changes nothing.
pub open spec fn submit_all(start: CollectorView, subs: Seq<Submission>) -> CollectorView
    decreases subs.len(),
{
    if subs.len() == 0 {
        start
    } else {
        let before = submit_all(start, subs.drop_last());
        let next = subs.last();
        if before.submit_error(next.feeder, next.height) is None {
            before.submit(next.feeder, next.value, next.height)
        } else {
            before
        }
    }
}

/// A value that is one of the collected values lies within their outlier
/// band.
pub proof fn lemma_collected_value_within_band(values: Seq<u64>, v: u64)
    requires
        values.contains(v),
    ensures
        within_outlier_band(min_value(values), max_value(values), v),
{
    lemma_min_value(values);
    lemma_max_value(values);
    let k = choose|k: int| 0 <= k < values.len() && values[k] == v;
    assert(min_value(values) <= values[k] <= max_value(values));
}

/// The outlier rule judges the triggering value against a collection that
/// holds that value, so a submission that reaches quorum never rejects the
/// round: the joined round is pending short of a quorum and answered at one.
pub proof fn lemma_quorum_answers_round(
    round: RoundDataView,
    feeders: nat,
    feeder: Seq<char>,
    value: u64,
    height: u64,
)
    requires
        round.status == RoundDataStatus::Pending,
    ensures
        joined_round(round, feeders, feeder, value, height).status == if quorum(
            round.answers.len() + 1,
            feeders,
        ) {
            RoundDataStatus::Answered
        } else {
            RoundDataStatus::Pending
        },
{
    let added = AnswerView { provider: feeder, value, updated_at_height: height };
    let answers = round.answers.push(added);
    let values = values_of(answers);
    assert(values[answers.len() - 1] == value);
    lemma_collected_value_within_band(values, value);
}

/// An accepted submission keeps the collector well formed. In particular the
/// round identifiers still ascend strictly, every round holds each feeder at
/// most once, and `latest_round` names the round opened last.
pub proof fn lemma_submit_preserves_well_formed(
    s: CollectorView,
    feeder: Seq<char>,
    value: u64,
    height: u64,
)
    requires
        s.well_formed(),
        s.submit_error(feeder, height) is None,
    ensures
        s.submit(feeder, value, height).well_formed(),
{
    let after = s.submit(feeder, value, height);
    if s.opens_round(height) {
        let opened = opened_round(feeder, value, height);
        assert(opened.well_formed());
        assert forall|i: int| 0 <= i < after.rounds.len() implies (
        #[trigger] after.rounds[i]).well_formed() by {
            if i < s.rounds.len() {
                assert(after.rounds[i] == s.rounds[i]);
            }
        }
        assert forall|i: int, j: int| 0 <= i < j < after.rounds.len() implies (
        #[trigger] after.rounds[i]).started_at_height < (
        #[trigger] after.rounds[j]).started_at_height by {
            assert(after.rounds[i] == s.rounds[i]);
            if j < s.rounds.len() {
                assert(after.rounds[j] == s.rounds[j]);
            } else if i < s.rounds.len() - 1 {
                assert(s.rounds[i].started_at_height < s.rounds[s.rounds.len()
                    - 1].started_at_height);
            }
        }
    } else {
        let current = s.rounds.last();
        let joined = joined_round(current, s.feeders.len(), feeder, value, height);
        assert(s.rounds[s.rounds.len() - 1].well_formed());
        assert forall|i: int, j: int| 0 <= i < j < joined.answers.len() implies (
        #[trigger] joined.answers[i]).provider != (#[trigger] joined.answers[j]).provider by {
            assert(joined.answers[i] == current.answers[i]);
            if j < current.answers.len() {
                assert(joined.answers[j] == current.answers[j]);
            }
        }
        assert(joined.well_formed());
        assert forall|i: int| 0 <= i < after.rounds.len() implies (
        #[trigger] after.rounds[i]).well_formed() by {
            if i < s.rounds.len() - 1 {
                assert(after.rounds[i] == s.rounds[i]);
            }
        }
        assert forall|i: int, j: int| 0 <= i < j < after.rounds.len() implies (
        #[trigger] after.rounds[i]).started_at_height < (
        #[trigger] after.rounds[j]).started_at_height by {
            assert(after.rounds[i] == s.rounds[i]);
            assert(after.rounds[j].started_at_height == s.rounds[j].started_at_height);
        }
    }
}

/// An accepted submission never removes a round and never changes the
/// identifier of one: the store grows by at most one round, at its end.
pub proof fn lemma_submit_keeps_rounds(s: CollectorView, feeder: Seq<char>, value: u64, height: u64)
    requires
        s.well_formed(),
    ensures
        s.rounds.len() <= s.submit(feeder, value, height).rounds.len() <= s.rounds.len() + 1,
        forall|i: int|
            0 <= i < s.rounds.len() ==> (#[trigger] s.submit(
                feeder,
                value,
                height,
            ).rounds[i]).started_at_height == s.rounds[i].started_at_height,
{
    let after = s.submit(feeder, value, height);
    assert forall|i: int| 0 <= i < s.rounds.len() implies (
    #[trigger] after.rounds[i]).started_at_height == s.rounds[i].started_at_height by {
        if s.opens_round(height) {
            assert(after.rounds[i] == s.rounds[i]);
        } else if i < s.rounds.len() - 1 {
            assert(after.rounds[i] == s.rounds[i]);
        }
    }
}

/// A round becomes terminal once and is never touched again. An accepted
/// submission changes the round opened last, if it is pending, and no other:
/// a terminal round stays as it is, answers and all, and a round that
/// changes was pending and keeps the observations it had, in their order.
pub proof fn lemma_terminal_rounds_are_immutable(
    s: CollectorView,
    feeder: Seq<char>,
    value: u64,
    height: u64,
)
    requires
        s.well_formed(),
        s.submit_error(feeder, height) is None,
    ensures
        forall|i: int|
            0 <= i < s.rounds.len() && (#[trigger] s.rounds[i]).status.is_terminal() ==> s.submit(
                feeder,
                value,
                height,
            ).rounds[i] == s.rounds[i],
        forall|i: int|
            0 <= i < s.rounds.len() && s.submit(feeder, value, height).rounds[i]
                != #[trigger] s.rounds[i] ==> {
                let after = s.submit(feeder, value, height).rounds[i];
                &&& i == s.rounds.len() - 1
                &&& s.rounds[i].status == RoundDataStatus::Pending
                &&& after.started_at_height == s.rounds[i].started_at_height
                &&& after.answers.len() == s.rounds[i].answers.len() + 1
                &&& after.answers.take(s.rounds[i].answers.len() as int) == s.rounds[i].answers
            },
{
    let after = s.submit(feeder, value, height);
    assert forall|i: int|
        0 <= i < s.rounds.len() && after.rounds[i] != #[trigger] s.rounds[i] implies {
        let changed = after.rounds[i];
        &&& i == s.rounds.len() - 1
        &&& s.rounds[i].status == RoundDataStatus::Pending
        &&& changed.started_at_height == s.rounds[i].started_at_height
        &&& changed.answers.len() == s.rounds[i].answers.len() + 1
        &&& changed.answers.take(s.rounds[i].answers.len() as int) == s.rounds[i].answers
    } by {
        let changed = after.rounds[i];
        assert(changed.answers.take(s.rounds[i].answers.len() as int) =~= s.rounds[i].answers);
    }
}

/// A value is published at the moment a round becomes answered and at no
/// other: an accepted submission reports a value to publish exactly where it
/// joined the latest round and left it answered. That round was pending
/// before, so the report marks its one transition.
pub proof fn lemma_published_when_answered(
    s: CollectorView,
    feeder: Seq<char>,
    value: u64,
    height: u64,
)
    requires
        s.well_formed(),
        s.submit_error(feeder, height) is None,
    ensures
        s.submit_response(feeder, value, height) matches Response::RoundDataUpdated {
            round_id,
            answer,
            publish,
        } && answer == value && round_id == s.submit(
            feeder,
            value,
            height,
        ).rounds.last().started_at_height && (publish is Some <==> !s.opens_round(height)
            && s.rounds.last().status == RoundDataStatus::Pending && s.submit(
            feeder,
            value,
            height,
        ).rounds.last().status == RoundDataStatus::Answered),
{
    if !s.opens_round(height) {
        lemma_quorum_answers_round(s.rounds.last(), s.feeders.len(), feeder, value, height);
    }
}

/// A round is published at most once. Once the latest round is terminal, no
/// submission joins it any more: until the round expires every submission is
/// refused, so none reports a value to publish for it.
pub proof fn lemma_terminal_round_refuses(s: CollectorView, feeder: Seq<char>, height: u64)
    requires
        s.rounds.len() > 0,
        s.rounds.last().status.is_terminal(),
        !s.opens_round(height),
    ensures
        s.submit_error(feeder, height) == Some(
            if s.feeders.contains(feeder) {
                ContractError::RoundEnded
            } else {
                ContractError::Unauthorized
            },
        ),
{
}

/// A change of the feeder registry keeps the collector well formed and
/// leaves every round and the cursor as they are.
pub proof fn lemma_set_feeder_preserves_well_formed(
    s: CollectorView,
    feeder: Seq<char>,
    authorized: bool,
)
    requires
        s.well_formed(),
    ensures
        s.set_feeder(feeder, authorized).well_formed(),
        s.set_feeder(feeder, authorized).rounds == s.rounds,
        s.set_feeder(feeder, authorized).latest_round == s.latest_round,
        s.set_feeder(feeder, authorized).feeders.contains(feeder) == authorized,
{
}

/// Round identifiers are monotonic. Whatever submissions arrive, in whatever
/// order and at whatever heights, the collector stays well formed, so the
/// identifiers in its store ascend strictly; and the rounds that were there
/// before are still there, under the same identifiers and in the same places.
pub proof fn lemma_round_ids_strictly_increase(start: CollectorView, subs: Seq<Submission>)
    requires
        start.well_formed(),
    ensures
        submit_all(start, subs).well_formed(),
        ids_increasing(submit_all(start, subs).rounds),
        start.rounds.len() <= submit_all(start, subs).rounds.len(),
        forall|i: int|
            0 <= i < start.rounds.len() ==> (#[trigger] submit_all(
                start,
                subs,
            ).rounds[i]).started_at_height == start.rounds[i].started_at_height,
    decreases subs.len(),
{
    if subs.len() > 0 {
        let before = submit_all(start, subs.drop_last());
        let next = subs.last();
        lemma_round_ids_strictly_increase(start, subs.drop_last());
        if before.submit_error(next.feeder, next.height) is None {
            lemma_submit_preserves_well_formed(before, next.feeder, next.value, next.height);
            lemma_submit_keeps_rounds(before, next.feeder, next.value, next.height);
        }
    }
}

/// A feeder cannot vote twice in one round. After an accepted submission of
/// `feeder`, a second one that would join the same round, still pending, is
/// refused with `InvalidUpdate`.
pub proof fn lemma_duplicate_vote_rejected(
    s: CollectorView,
    feeder: Seq<char>,
    value: u64,
    first: u64,
    second: u64,
)
    requires
        s.well_formed(),
        s.submit_error(feeder, first) is None,
        !s.submit(feeder, value, first).opens_round(second),
        s.submit(feeder, value, first).rounds.last().status == RoundDataStatus::Pending,
    ensures
        s.submit(feeder, value, first).submit_error(feeder, second) == Some(
            ContractError::InvalidUpdate,
        ),
{
    let after = s.submit(feeder, value, first);
    let round = after.rounds.last();
    let k = round.answers.len() - 1;
    assert(round.answers[k].provider == feeder);
}

/// The expiry window is closed below and open above. With a round opened at
/// `latest_round`, a submission one height short of the window joins that
/// round: the store keeps its length and the round gains the observation. A
/// submission at the window opens a new round at its own height.
pub proof fn lemma_round_boundary(s: CollectorView, feeder: Seq<char>, value: u64)
    requires
        s.well_formed(),
        s.rounds.len() > 0,
        s.latest_round + ROUND_EXPIRY_WINDOW <= u64::MAX,
    ensures
        ({
            let inside = (s.latest_round + ROUND_EXPIRY_WINDOW - 1) as u64;
            let after = s.submit(feeder, value, inside);
            &&& !s.opens_round(inside)
            &&& after.rounds.len() == s.rounds.len()
            &&& after.latest_round == s.latest_round
            &&& after.rounds.last().started_at_height == s.latest_round
            &&& after.rounds.last().answers.len() == s.rounds.last().answers.len() + 1
        }),
        ({
            let at = (s.latest_round + ROUND_EXPIRY_WINDOW) as u64;
            let after = s.submit(feeder, value, at);
            &&& s.opens_round(at)
            &&& after.rounds.len() == s.rounds.len() + 1
            &&& after.latest_round == at
            &&& after.rounds.last() == opened_round(feeder, value, at)
            &&& after.rounds[s.rounds.len() - 1] == s.rounds.last()
        }),
{
}

/// In a well-formed collector the latest round is the one that
/// `latest_round` names, and it has the greatest identifier of all.
pub proof fn lemma_latest_round_is_named(s: CollectorView)
    requires
        s.well_formed(),
        s.rounds.len() > 0,
    ensures
        s.latest_round_data() == Some(s.rounds.last()),
        s.rounds.last().started_at_height == s.latest_round,
        forall|i: int|
            0 <= i < s.rounds.len() ==> (#[trigger] s.rounds[i]).started_at_height
                <= s.latest_round,
{
    assert forall|i: int| 0 <= i < s.rounds.len() implies (
    #[trigger] s.rounds[i]).started_at_height <= s.latest_round by {
        if i < s.rounds.len() - 1 {
            assert(s.rounds[i].started_at_height < s.rounds[s.rounds.len()
                - 1].started_at_height);
        }
    }
}

/// A lookup by identifier returns the most recent round of its window. The
/// round found is one of the store, its identifier lies between `round_id`
/// less the lookback and `round_id`, and no round of the store in that range
/// has a greater one. Nothing is found only where no round lies in the
/// range.
pub proof fn lemma_round_near_is_most_recent(s: CollectorView, round_id: u64)
    requires
        ids_increasing(s.rounds),
    ensures
        match s.round_near(round_id) {
            Some(found) => {
                &&& s.rounds.contains(found)
                &&& round_id - WINDOW_MULTIPLIER * ROUND_EXPIRY_WINDOW <= found.started_at_height
                    <= round_id
                &&& forall|i: int|
                    0 <= i < s.rounds.len() && round_id - WINDOW_MULTIPLIER * ROUND_EXPIRY_WINDOW
                        <= (#[trigger] s.rounds[i]).started_at_height <= round_id
                        ==> s.rounds[i].started_at_height <= found.started_at_height
            },
            None => forall|i: int|
                0 <= i < s.rounds.len() ==> !(round_id - WINDOW_MULTIPLIER * ROUND_EXPIRY_WINDOW
                    <= (#[trigger] s.rounds[i]).started_at_height <= round_id),
        },
{
    let from = round_id - WINDOW_MULTIPLIER * ROUND_EXPIRY_WINDOW;
    let to = round_id as int;
    let found = rounds_between(s.rounds, from, to);
    lemma_rounds_between(s.rounds, from, to);
    if found.len() > 0 {
        let last = found.last();
        assert(found[found.len() - 1] == last);
        assert forall|i: int|
            0 <= i < s.rounds.len() && from <= (#[trigger] s.rounds[i]).started_at_height
                <= to implies s.rounds[i].started_at_height <= last.started_at_height by {
            assert(found.contains(s.rounds[i]));
            let k = choose|k: int| 0 <= k < found.len() && found[k] == s.rounds[i];
            if k < found.len() - 1 {
                assert(found[k].started_at_height < found[found.len() - 1].started_at_height);
            }
        }
    } else {
        assert forall|i: int| 0 <= i < s.rounds.len() implies !(from <= (
        #[trigger] s.rounds[i]).started_at_height <= to) by {
            if from <= s.rounds[i].started_at_height <= to {
                assert(found.contains(s.rounds[i]));
            }
        }
    }
}

/// Reading the latest round is repeatable. A read does not change the state,
/// and the state alone decides what it returns: two reads of one state agree
/// in success and in every field of the round.
pub proof fn lemma_latest_round_read_repeatable(
    deps: CollectorState,
    first: Result<RoundData, ContractError>,
    second: Result<RoundData, ContractError>,
)
    requires
        read_ensures(deps@.latest_round_data(), first),
        read_ensures(deps@.latest_round_data(), second),
    ensures
        first is Ok <==> second is Ok,
        first is Ok ==> first->Ok_0@ == second->Ok_0@,
        first is Err ==> first == second,
{
}

} // verus!
