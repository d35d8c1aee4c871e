//! The arithmetic of a round: expiry, quorum, the outlier band, and the value
//! that stands for a finalized round.

use crate::price_collector::state::{Answer, AnswerView, RoundData, RoundDataView};
use vstd::prelude::*;

verus! {

/// Height distance after which a round stops accepting observations: five
/// minutes at one block per second.
pub const ROUND_EXPIRY_WINDOW: u64 = 300;

/// How many expiry windows a lookup by round identifier reaches back.
pub const WINDOW_MULTIPLIER: u64 = 13;

/// Which single value stands for a finalized round.
#[derive(Clone, Copy, Debug, PartialEq, Eq, Structural)]
pub enum AnswerPolicy {
    /// The value of the observation with the greatest submission height; among
    /// observations of equal height, the one accepted last.
    MostRecent,
    /// The mean of all values of the round, truncated toward zero.
    Mean,
}

/// A round opened at `latest` is closed to a submission at `height` once the
/// two are at least one expiry window apart. A height below `latest` is never
/// past the window.
pub open spec fn round_expired(latest: u64, height: u64) -> bool {
    height - latest >= ROUND_EXPIRY_WINDOW
}

/// More than two thirds of `feeders` have answered.
pub open spec fn quorum(answers: nat, feeders: nat) -> bool {
    3 * answers > 2 * feeders
}

/// `v` lies between 90% of `lo` and 110% of `hi`, both bounds included. The
/// comparison is exact: no bound is rounded.
pub open spec fn within_outlier_band(lo: u64, hi: u64, v: u64) -> bool {
    9 * lo <= 10 * v && 10 * v <= 11 * hi
}

/// The values of a sequence of observations, in the same order.
pub open spec fn values_of(answers: Seq<AnswerView>) -> Seq<u64> {
    answers.map_values(|a: AnswerView| a.value)
}

/// The smallest element of a non-empty sequence.
pub open spec fn min_value(s: Seq<u64>) -> u64
    decreases s.len(),
{
    if s.len() <= 1 {
        s[0]
    } else if s.last() < min_value(s.drop_last()) {
        s.last()
    } else {
        min_value(s.drop_last())
    }
}

/// The largest element of a non-empty sequence.
pub open spec fn max_value(s: Seq<u64>) -> u64
    decreases s.len(),
{
    if s.len() <= 1 {
        s[0]
    } else if s.last() > max_value(s.drop_last()) {
        s.last()
    } else {
        max_value(s.drop_last())
    }
}

/// `s` ascends, equal neighbours allowed.
pub open spec fn ascending(s: Seq<u64>) -> bool {
    forall|i: int, j: int| 0 <= i <= j < s.len() ==> s[i] <= s[j]
}

/// The observation that the most-recent policy selects from a non-empty
/// sequence: the greatest submission height wins, and of several observations
/// at that height the last one.
pub open spec fn most_recent(answers: Seq<AnswerView>) -> AnswerView
    decreases answers.len(),
{
    if answers.len() <= 1 {
        answers[0]
    } else if answers.last().updated_at_height >= most_recent(
        answers.drop_last(),
    ).updated_at_height {
        answers.last()
    } else {
        most_recent(answers.drop_last())
    }
}

impl RoundDataView {
    /// The value of the most recent observation; 0 for a round without
    /// observations.
    pub open spec fn most_recent_value(self) -> nat {
        if self.answers.len() == 0 {
            0
        } else {
            most_recent(self.answers).value as nat
        }
    }

    /// The value that stands for the round under `policy`.
    pub open spec fn finalized_value(self, policy: AnswerPolicy) -> nat {
        match policy {
            AnswerPolicy::MostRecent => self.most_recent_value(),
            AnswerPolicy::Mean => self.mean(),
        }
    }
}

/// `min_value` is an element of the sequence and a lower bound of it.
pub proof fn lemma_min_value(s: Seq<u64>)
    requires
        s.len() > 0,
    ensures
        s.contains(min_value(s)),
        forall|i: int| 0 <= i < s.len() ==> min_value(s) <= #[trigger] s[i],
    decreases s.len(),
{
    if s.len() == 1 {
        assert(s[0] == min_value(s));
    } else {
        let front = s.drop_last();
        lemma_min_value(front);
        let k = choose|k: int| 0 <= k < front.len() && front[k] == min_value(front);
        assert(s[k] == front[k]);
        assert(s[s.len() - 1] == s.last());
        assert forall|i: int| 0 <= i < s.len() implies min_value(s) <= #[trigger] s[i] by {
            if i < front.len() {
                assert(front[i] == s[i]);
            }
        }
    }
}

/// `max_value` is an element of the sequence and an upper bound of it.
pub proof fn lemma_max_value(s: Seq<u64>)
    requires
        s.len() > 0,
    ensures
        s.contains(max_value(s)),
        forall|i: int| 0 <= i < s.len() ==> max_value(s) >= #[trigger] s[i],
    decreases s.len(),
{
    if s.len() == 1 {
        assert(s[0] == max_value(s));
    } else {
        let front = s.drop_last();
        lemma_max_value(front);
        let k = choose|k: int| 0 <= k < front.len() && front[k] == max_value(front);
        assert(s[k] == front[k]);
        assert(s[s.len() - 1] == s.last());
        assert forall|i: int| 0 <= i < s.len() implies max_value(s) >= #[trigger] s[i] by {
            if i < front.len() {
                assert(front[i] == s[i]);
            }
        }
    }
}

/// The most recent observation is one of the sequence, no observation has a
/// greater height, and every observation after it has a smaller one.
pub proof fn lemma_most_recent(answers: Seq<AnswerView>) -> (k: int)
    requires
        answers.len() > 0,
    ensures
        0 <= k < answers.len(),
        answers[k] == most_recent(answers),
        forall|i: int|
            0 <= i < answers.len() ==> (#[trigger] answers[i]).updated_at_height
                <= answers[k].updated_at_height,
        forall|i: int|
            k < i < answers.len() ==> (#[trigger] answers[i]).updated_at_height
                < answers[k].updated_at_height,
    decreases answers.len(),
{
    if answers.len() == 1 {
        0
    } else {
        let front = answers.drop_last();
        let k0 = lemma_most_recent(front);
        assert(forall|i: int| 0 <= i < front.len() ==> front[i] == answers[i]);
        if answers.last().updated_at_height >= most_recent(front).updated_at_height {
            answers.len() - 1
        } else {
            k0
        }
    }
}

/// Whether a round opened at `latest` is closed to a submission at `height`.
pub fn is_round_expired(latest: u64, height: u64) -> (res: bool)
    ensures
        res == round_expired(latest, height),
{
    height >= latest && height - latest >= ROUND_EXPIRY_WINDOW
}

/// Whether `answers` observations are a quorum of `feeders` authorized
/// feeders: strictly more than two thirds.
pub fn quorum_reached(answers: usize, feeders: usize) -> (res: bool)
    ensures
        res == quorum(answers as nat, feeders as nat),
{
    (answers as u128) * 3 > (feeders as u128) * 2
}

/// Whether a value `v` that triggers quorum is accepted against the smallest
/// value `lo` and the largest value `hi` of the round.
pub fn outlier_accepts(lo: u64, hi: u64, v: u64) -> (res: bool)
    ensures
        res == within_outlier_band(lo, hi, v),
{
    let scaled: u128 = (v as u128) * 10;
    (lo as u128) * 9 <= scaled && scaled <= (hi as u128) * 11
}

/// The observed values in ascending order, by insertion sort.
pub fn sorted_values(answers: &Vec<Answer>) -> (sorted: Vec<u64>)
    ensures
        ascending(sorted@),
        sorted@.to_multiset() == values_of(answers@.map_values(|a: Answer| a@)).to_multiset(),
{
    let ghost values = values_of(answers@.map_values(|a: Answer| a@));
    let mut sorted: Vec<u64> = Vec::new();
    let mut k: usize = 0;
    proof {
        assert(sorted@ =~= values.take(0));
    }
    while k < answers.len()
        invariant
            k <= answers.len(),
            values == values_of(answers@.map_values(|a: Answer| a@)),
            ascending(sorted@),
            sorted@.to_multiset() == values.take(k as int).to_multiset(),
        decreases answers.len() - k,
    {
        let value: u64 = answers[k].value;
        let mut i: usize = sorted.len();
        while i > 0 && value < sorted[i - 1]
            invariant
                i <= sorted.len(),
                forall|j: int| i <= j < sorted.len() ==> value < #[trigger] sorted[j],
            decreases i,
        {
            i -= 1;
        }
        proof {
            broadcast use {vstd::seq_lib::to_multiset_insert, vstd::seq_lib::to_multiset_build};

            assert(values.take(k + 1) =~= values.take(k as int).push(value));
            let before = sorted@;
            let after = before.insert(i as int, value);
            assert forall|a: int, b: int| 0 <= a <= b < after.len() implies after[a]
                <= after[b] by {
                if a < i && b > i {
                    assert(before[a] <= before[b - 1]);
                } else if a < i && b < i {
                    assert(before[a] <= before[b]);
                } else if a > i {
                    assert(before[a - 1] <= before[b - 1]);
                } else if b == i && a < i {
                    assert(before[a] <= before[i - 1]);
                }
            }
        }
        sorted.insert(i, value);
        k += 1;
    }
    proof {
        assert(values.take(k as int) =~= values);
    }
    sorted
}

/// The ends of an ascending arrangement of `values` are its smallest and its
/// largest element.
pub proof fn lemma_sorted_ends(sorted: Seq<u64>, values: Seq<u64>)
    requires
        ascending(sorted),
        sorted.to_multiset() == values.to_multiset(),
        values.len() > 0,
    ensures
        sorted.len() == values.len(),
        sorted[0] == min_value(values),
        sorted[sorted.len() - 1] == max_value(values),
{
    broadcast use vstd::seq_lib::to_multiset_contains;

    vstd::seq_lib::to_multiset_len(sorted);
    vstd::seq_lib::to_multiset_len(values);
    assert(sorted.len() == values.len());
    lemma_min_value(values);
    lemma_max_value(values);
    let lo = min_value(values);
    let hi = max_value(values);
    let first = sorted[0];
    let last = sorted[sorted.len() - 1];
    assert(sorted.contains(lo)) by {
        assert(values.to_multiset().count(lo) > 0);
        assert(sorted.to_multiset().count(lo) > 0);
    }
    assert(sorted.contains(hi)) by {
        assert(values.to_multiset().count(hi) > 0);
        assert(sorted.to_multiset().count(hi) > 0);
    }
    assert(values.contains(first)) by {
        assert(sorted.contains(first));
        assert(sorted.to_multiset().count(first) > 0);
        assert(values.to_multiset().count(first) > 0);
    }
    assert(values.contains(last)) by {
        assert(sorted.contains(last));
        assert(sorted.to_multiset().count(last) > 0);
        assert(values.to_multiset().count(last) > 0);
    }
}

/// The smallest and the largest observed value of a round with at least one
/// observation.
pub fn outlier_bounds(answers: &Vec<Answer>) -> (bounds: (u64, u64))
    requires
        answers.len() > 0,
    ensures
        bounds.0 == min_value(values_of(answers@.map_values(|a: Answer| a@))),
        bounds.1 == max_value(values_of(answers@.map_values(|a: Answer| a@))),
{
    let sorted = sorted_values(answers);
    proof {
        lemma_sorted_ends(sorted@, values_of(answers@.map_values(|a: Answer| a@)));
    }
    (sorted[0], sorted[sorted.len() - 1])
}

impl RoundData {
    /// The value of the most recent observation: the one with the greatest
    /// submission height, and of several at that height the one accepted
    /// last; 0 when the round has no observation.
    pub fn most_recent_answer(&self) -> (res: u64)
        ensures
            res == self@.most_recent_value(),
    {
        if self.answers.len() == 0 {
            return 0;
        }
        let mut best: usize = 0;
        let mut i: usize = 1;
        proof {
            assert(self@.answers.take(1).len() == 1);
        }
        while i < self.answers.len()
            invariant
                1 <= i <= self.answers.len(),
                best < i,
                self@.answers[best as int] == most_recent(self@.answers.take(i as int)),
            decreases self.answers.len() - i,
        {
            proof {
                let next = self@.answers.take(i + 1);
                assert(next.drop_last() =~= self@.answers.take(i as int));
                assert(next.last() == self@.answers[i as int]);
            }
            if self.answers[i].updated_at_height >= self.answers[best].updated_at_height {
                best = i;
            }
            i += 1;
        }
        proof {
            assert(self@.answers.take(self.answers.len() as int) =~= self@.answers);
        }
        self.answers[best].value
    }

    /// The value that stands for the round under `policy`.
    pub fn finalized_value(&self, policy: AnswerPolicy) -> (res: u64)
        ensures
            res == self@.finalized_value(policy),
    {
        match policy {
            AnswerPolicy::MostRecent => self.most_recent_answer(),
            AnswerPolicy::Mean => self.current_answer(),
        }
    }
}

} // verus!
