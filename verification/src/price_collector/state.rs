use crate::price_collector::aggregation::AnswerPolicy;
use crate::price_collector::error::ContractError;
use crate::price_collector::registry::FeederRegistry;
use crate::price_collector::store::{ids_increasing, RoundStore};
use vstd::prelude::*;

verus! {

/// Lifecycle of a round. A round starts `Pending` and becomes terminal once.
#[derive(Clone, Copy, Debug, PartialEq, Eq, Structural)]
pub enum RoundDataStatus {
    Pending,
    Answered,
    Rejected,
}

impl RoundDataStatus {
    /// The round accepts no further observation.
    pub open spec fn is_terminal(self) -> bool {
        self != RoundDataStatus::Pending
    }

    /// Takes the one step that the lifecycle allows: from pending to answered
    /// or rejected. From a terminal status the step fails with `RoundEnded`.
    pub fn finalize(self, accepted: bool) -> (res: Result<RoundDataStatus, ContractError>)
        ensures
            self.is_terminal() ==> res == Err::<RoundDataStatus, ContractError>(
                ContractError::RoundEnded,
            ),
            !self.is_terminal() && accepted ==> res == Ok::<RoundDataStatus, ContractError>(
                RoundDataStatus::Answered,
            ),
            !self.is_terminal() && !accepted ==> res == Ok::<RoundDataStatus, ContractError>(
                RoundDataStatus::Rejected,
            ),
    {
        match self {
            RoundDataStatus::Pending => Ok(
                if accepted {
                    RoundDataStatus::Answered
                } else {
                    RoundDataStatus::Rejected
                },
            ),
            _ => Err(ContractError::RoundEnded),
        }
    }
}

/// One feeder's observation.
#[derive(Debug, PartialEq, Eq)]
pub struct Answer {
    pub provider: String,
    pub value: u64,
    pub updated_at_height: u64,
}

/// Mathematical value of an [`Answer`].
pub struct AnswerView {
    pub provider: Seq<char>,
    pub value: u64,
    pub updated_at_height: u64,
}

impl View for Answer {
    type V = AnswerView;

    open spec fn view(&self) -> AnswerView {
        AnswerView {
            provider: self.provider@,
            value: self.value,
            updated_at_height: self.updated_at_height,
        }
    }
}

impl Clone for Answer {
    fn clone(&self) -> (res: Self)
        ensures
            res@ == self@,
    {
        Answer {
            provider: self.provider.clone(),
            value: self.value,
            updated_at_height: self.updated_at_height,
        }
    }
}

/// A round: the observations collected between its opening and its expiry or
/// finalization.
#[derive(Debug, PartialEq, Eq)]
pub struct RoundData {
    /// Height at which the round was opened; also its identifier.
    pub started_at_height: u64,
    pub status: RoundDataStatus,
    /// Observations in the order in which they were accepted.
    pub answers: Vec<Answer>,
    /// Height of the finalizing submission; 0 while the round is pending.
    pub answered_at_height: u64,
}

/// Mathematical value of a [`RoundData`].
pub struct RoundDataView {
    pub started_at_height: u64,
    pub status: RoundDataStatus,
    pub answers: Seq<AnswerView>,
    pub answered_at_height: u64,
}

impl View for RoundData {
    type V = RoundDataView;

    open spec fn view(&self) -> RoundDataView {
        RoundDataView {
            started_at_height: self.started_at_height,
            status: self.status,
            answers: self.answers@.map_values(|a: Answer| a@),
            answered_at_height: self.answered_at_height,
        }
    }
}

/// Sum of the values of a sequence of observations.
pub open spec fn sum_of_values(answers: Seq<AnswerView>) -> nat
    decreases answers.len(),
{
    if answers.len() == 0 {
        0
    } else {
        sum_of_values(answers.drop_last()) + answers.last().value as nat
    }
}

impl RoundDataView {
    /// Whether `provider` has an observation in this round.
    pub open spec fn is_answered(self, provider: Seq<char>) -> bool {
        exists|i: int|
            0 <= i < self.answers.len() && (#[trigger] self.answers[i]).provider == provider
    }

    /// The mean of the observed values, truncated; 0 for a round without
    /// observations.
    pub open spec fn mean(self) -> nat {
        if self.answers.len() == 0 {
            0
        } else {
            sum_of_values(self.answers) / self.answers.len()
        }
    }

    /// What holds of every round that the engine stores: it has at least one
    /// observation, no feeder has two, and `answered_at_height` is 0 while the
    /// round is pending.
    pub open spec fn well_formed(self) -> bool {
        &&& self.answers.len() > 0
        &&& self.providers_distinct()
        &&& self.status == RoundDataStatus::Pending ==> self.answered_at_height == 0
    }

    /// No feeder has more than one observation in this round.
    pub open spec fn providers_distinct(self) -> bool {
        forall|i: int, j: int|
            0 <= i < j < self.answers.len() ==> (#[trigger] self.answers[i]).provider != (
            #[trigger] self.answers[j]).provider
    }
}

impl RoundData {
    /// Whether `provider` already has an observation in this round.
    pub fn is_answered(&self, provider: String) -> (res: bool)
        ensures
            res == self@.is_answered(provider@),
    {
        let mut i: usize = 0;
        while i < self.answers.len()
            invariant
                i <= self.answers.len(),
                forall|k: int| 0 <= k < i ==> (#[trigger] self@.answers[k]).provider != provider@,
            decreases self.answers.len() - i,
        {
            if self.answers[i].provider == provider {
                assert(self@.answers[i as int].provider == provider@);
                return true;
            }
            i += 1;
        }
        false
    }

    /// The mean of all observed values, truncated toward zero; 0 when the
    /// round has no observation.
    pub fn current_answer(&self) -> (res: u64)
        ensures
            res == self@.mean(),
    {
        let n: usize = self.answers.len();
        if n == 0 {
            return 0;
        }
        let mut sum: u128 = 0;
        let mut i: usize = 0;
        while i < n
            invariant
                i <= n,
                n == self.answers.len(),
                sum == sum_of_values(self@.answers.take(i as int)),
                sum <= i * u64::MAX,
            decreases n - i,
        {
            proof {
                let next = self@.answers.take(i + 1);
                assert(next.drop_last() =~= self@.answers.take(i as int));
                assert(next.last() == self@.answers[i as int]);
                assert(i * u64::MAX + u64::MAX == (i + 1) * u64::MAX) by (nonlinear_arith);
                assert((i + 1) * u64::MAX <= usize::MAX * u64::MAX) by (nonlinear_arith)
                    requires
                        i + 1 <= usize::MAX,
                ;
            }
            sum = sum + self.answers[i].value as u128;
            i += 1;
        }
        proof {
            assert(self@.answers.take(n as int) =~= self@.answers);
            assert(sum / (n as u128) <= u64::MAX) by (nonlinear_arith)
                requires
                    sum <= n * u64::MAX,
                    n > 0,
            ;
        }
        (sum / (n as u128)) as u64
    }

    /// Whether the round is one that the engine may store: it has at least
    /// one observation, no feeder has two, and a pending round has no
    /// finalization height.
    pub fn is_well_formed(&self) -> (res: bool)
        ensures
            res == self@.well_formed(),
    {
        if self.answers.len() == 0 {
            return false;
        }
        match self.status {
            RoundDataStatus::Pending => {
                if self.answered_at_height != 0 {
                    return false;
                }
            },
            _ => {},
        }
        let mut j: usize = 0;
        while j < self.answers.len()
            invariant
                j <= self.answers.len(),
                forall|a: int, b: int|
                    0 <= a < b < j ==> (#[trigger] self@.answers[a]).provider != (
                    #[trigger] self@.answers[b]).provider,
            decreases self.answers.len() - j,
        {
            let mut i: usize = 0;
            while i < j
                invariant
                    i <= j < self.answers.len(),
                    forall|a: int|
                        0 <= a < i ==> (#[trigger] self@.answers[a]).provider
                            != self@.answers[j as int].provider,
                decreases j - i,
            {
                if self.answers[i].provider == self.answers[j].provider {
                    assert(self@.answers[i as int].provider == self@.answers[j as int].provider);
                    return false;
                }
                i += 1;
            }
            j += 1;
        }
        true
    }

    /// How many observations the round holds.
    pub fn current_number_answeres(&self) -> (res: usize)
        ensures
            res == self@.answers.len(),
    {
        self.answers.len()
    }
}

impl Clone for RoundData {
    fn clone(&self) -> (res: Self)
        ensures
            res@ == self@,
    {
        let mut answers: Vec<Answer> = Vec::new();
        let mut i: usize = 0;
        while i < self.answers.len()
            invariant
                i <= self.answers.len(),
                answers.len() == i,
                forall|k: int| 0 <= k < i ==> (#[trigger] answers[k])@ == self.answers[k]@,
            decreases self.answers.len() - i,
        {
            answers.push(self.answers[i].clone());
            i += 1;
        }
        let res = RoundData {
            started_at_height: self.started_at_height,
            status: self.status,
            answers,
            answered_at_height: self.answered_at_height,
        };
        assert(res@.answers =~= self@.answers);
        res
    }
}

/// Who administers the collector and how it finalizes a round.
#[derive(Debug)]
pub struct Config {
    /// The only address that may change the feeder registry.
    pub owner: String,
    /// Which value stands for an answered round. Chosen once, at
    /// instantiation.
    pub policy: AnswerPolicy,
}

/// The price feed that receives finalized values, and the cursor into the
/// round store.
#[derive(Debug)]
pub struct PriceFeedInfo {
    /// Address of the downstream price feed.
    pub price_feed: String,
    /// Identifier of the round opened last. Before the first observation it
    /// holds the height of instantiation and names no round.
    pub latest_round: u64,
}

/// Everything the collector keeps between calls.
#[derive(Debug)]
pub struct CollectorState {
    pub config: Config,
    pub price_feed_info: PriceFeedInfo,
    pub feeders: FeederRegistry,
    pub round_data: RoundStore,
}

/// Mathematical value of a [`CollectorState`].
pub struct CollectorView {
    pub owner: Seq<char>,
    pub policy: AnswerPolicy,
    pub price_feed: Seq<char>,
    pub latest_round: u64,
    pub feeders: Set<Seq<char>>,
    pub rounds: Seq<RoundDataView>,
}

impl CollectorView {
    /// What holds of the collector between any two calls: round identifiers
    /// ascend strictly, every round is well formed, and once a round exists
    /// `latest_round` names the one opened last.
    pub open spec fn well_formed(self) -> bool {
        &&& self.feeders.finite()
        &&& ids_increasing(self.rounds)
        &&& forall|i: int| 0 <= i < self.rounds.len() ==> (#[trigger] self.rounds[i]).well_formed()
        &&& self.rounds.len() > 0 ==> self.latest_round == self.rounds.last().started_at_height
    }
}

impl View for CollectorState {
    type V = CollectorView;

    open spec fn view(&self) -> CollectorView {
        CollectorView {
            owner: self.config.owner@,
            policy: self.config.policy,
            price_feed: self.price_feed_info.price_feed@,
            latest_round: self.price_feed_info.latest_round,
            feeders: self.feeders@,
            rounds: self.round_data@,
        }
    }
}

impl CollectorState {
    /// The parts are well formed and together satisfy the collector's
    /// invariant.
    pub open spec fn wf(&self) -> bool {
        &&& self.feeders.wf()
        &&& self.round_data.wf()
        &&& self@.well_formed()
    }

    /// The collector that was stored as these parts: `feeders` in any order,
    /// `rounds` oldest first. `None` unless the parts form a well-formed
    /// collector. An address listed twice among `feeders` counts once.
    pub fn restore(
        config: Config,
        price_feed_info: PriceFeedInfo,
        feeders: Vec<String>,
        rounds: Vec<RoundData>,
    ) -> (res: Option<CollectorState>)
        ensures
            match res {
                Some(deps) => deps.wf() && deps@ == restored(
                    config,
                    price_feed_info,
                    feeders@,
                    rounds@,
                ),
                None => !restored(config, price_feed_info, feeders@, rounds@).well_formed(),
            },
    {
        let ghost names = feeders@.map_values(|s: String| s@);
        let ghost views = rounds@.map_values(|r: RoundData| r@);
        let mut k: usize = 0;
        while k < rounds.len()
            invariant
                k <= rounds.len(),
                views == rounds@.map_values(|r: RoundData| r@),
                forall|i: int| 0 <= i < k ==> (#[trigger] views[i]).well_formed(),
            decreases rounds.len() - k,
        {
            if !rounds[k].is_well_formed() {
                assert(!views[k as int].well_formed());
                return None;
            }
            k += 1;
        }
        if rounds.len() > 0 && rounds[rounds.len() - 1].started_at_height
            != price_feed_info.latest_round {
            assert(views.last() == rounds[rounds.len() - 1]@);
            return None;
        }
        let mut registry = FeederRegistry::new();
        let mut i: usize = 0;
        proof {
            assert(names.take(0).to_set() =~= Set::<Seq<char>>::empty());
        }
        while i < feeders.len()
            invariant
                i <= feeders.len(),
                names == feeders@.map_values(|s: String| s@),
                registry.wf(),
                registry@ == names.take(i as int).to_set(),
            decreases feeders.len() - i,
        {
            proof {
                assert(names.take(i + 1) =~= names.take(i as int).push(names[i as int]));
                names.take(i as int).lemma_push_to_set_commute(names[i as int]);
            }
            registry.set_feeder(feeders[i].clone(), true);
            i += 1;
        }
        proof {
            assert(names.take(feeders.len() as int) =~= names);
            registry.lemma_finite();
        }
        match RoundStore::from_rounds(rounds) {
            Some(round_data) => Some(
                CollectorState { config, price_feed_info, feeders: registry, round_data },
            ),
            None => None,
        }
    }
}

/// The collector that `restore` builds from its parts.
pub open spec fn restored(
    config: Config,
    price_feed_info: PriceFeedInfo,
    feeders: Seq<String>,
    rounds: Seq<RoundData>,
) -> CollectorView {
    CollectorView {
        owner: config.owner@,
        policy: config.policy,
        price_feed: price_feed_info.price_feed@,
        latest_round: price_feed_info.latest_round,
        feeders: feeders.map_values(|s: String| s@).to_set(),
        rounds: rounds.map_values(|r: RoundData| r@),
    }
}

} // verus!
