//! The round store: every round ever opened, ordered by identifier.

use crate::price_collector::error::ContractError;
use crate::price_collector::state::{RoundData, RoundDataView};
use vstd::prelude::*;

verus! {

/// Identifiers ascend strictly along the sequence.
pub open spec fn ids_increasing(rounds: Seq<RoundDataView>) -> bool {
    forall|i: int, j: int|
        0 <= i < j < rounds.len() ==> (#[trigger] rounds[i]).started_at_height < (
        #[trigger] rounds[j]).started_at_height
}

/// Some round of the sequence has the identifier `id`.
pub open spec fn has_round(rounds: Seq<RoundDataView>, id: u64) -> bool {
    exists|i: int| 0 <= i < rounds.len() && (#[trigger] rounds[i]).started_at_height == id
}

/// The rounds whose identifier lies between `from` and `to`, both included, in
/// the order of the sequence.
pub open spec fn rounds_between(rounds: Seq<RoundDataView>, from: int, to: int) -> Seq<
    RoundDataView,
> {
    rounds.filter(|r: RoundDataView| from <= r.started_at_height <= to)
}

/// One step of `rounds_between`: the last round is kept or dropped by its own
/// identifier.
pub proof fn lemma_rounds_between_step(rounds: Seq<RoundDataView>, from: int, to: int)
    requires
        rounds.len() > 0,
    ensures
        rounds_between(rounds, from, to) == if from <= rounds.last().started_at_height <= to {
            rounds_between(rounds.drop_last(), from, to).push(rounds.last())
        } else {
            rounds_between(rounds.drop_last(), from, to)
        },
{
    reveal(Seq::filter);
}

/// Every round that `rounds_between` returns lies in the range and is one of
/// `rounds`; every round of `rounds` in the range is returned; and where the
/// identifiers of `rounds` ascend, so do those of the result.
pub proof fn lemma_rounds_between(rounds: Seq<RoundDataView>, from: int, to: int)
    ensures
        forall|k: int|
            0 <= k < rounds_between(rounds, from, to).len() ==> {
                let r = #[trigger] rounds_between(rounds, from, to)[k];
                from <= r.started_at_height <= to && rounds.contains(r)
            },
        forall|i: int|
            0 <= i < rounds.len() && from <= (#[trigger] rounds[i]).started_at_height <= to
                ==> rounds_between(rounds, from, to).contains(rounds[i]),
        ids_increasing(rounds) ==> ids_increasing(rounds_between(rounds, from, to)),
    decreases rounds.len(),
{
    reveal(Seq::filter);
    if rounds.len() > 0 {
        let front = rounds.drop_last();
        let last = rounds.last();
        let sub = rounds_between(front, from, to);
        let out = rounds_between(rounds, from, to);
        lemma_rounds_between(front, from, to);
        lemma_rounds_between_step(rounds, from, to);
        assert forall|k: int| 0 <= k < out.len() implies {
            let r = #[trigger] out[k];
            from <= r.started_at_height <= to && rounds.contains(r)
        } by {
            if k < sub.len() {
                assert(out[k] == sub[k]);
                assert(front.contains(sub[k]));
                let m = choose|m: int| 0 <= m < front.len() && front[m] == sub[k];
                assert(rounds[m] == out[k]);
            } else {
                assert(out[k] == last);
                assert(rounds[rounds.len() - 1] == last);
            }
        }
        assert forall|i: int|
            0 <= i < rounds.len() && from <= (#[trigger] rounds[i]).started_at_height
                <= to implies out.contains(rounds[i]) by {
            if i < front.len() {
                assert(front[i] == rounds[i]);
                assert(sub.contains(front[i]));
                let m = choose|m: int| 0 <= m < sub.len() && sub[m] == front[i];
                assert(out[m] == rounds[i]);
            } else {
                assert(out[out.len() - 1] == rounds[i]);
            }
        }
        if ids_increasing(rounds) {
            assert(ids_increasing(front)) by {
                assert forall|i: int, j: int| 0 <= i < j < front.len() implies (
                #[trigger] front[i]).started_at_height < (
                #[trigger] front[j]).started_at_height by {
                    assert(front[i] == rounds[i] && front[j] == rounds[j]);
                }
            }
            assert forall|i: int, j: int| 0 <= i < j < out.len() implies (
            #[trigger] out[i]).started_at_height < (#[trigger] out[j]).started_at_height by {
                if j < sub.len() {
                    assert(out[i] == sub[i] && out[j] == sub[j]);
                } else {
                    assert(out[j] == last);
                    assert(out[i] == sub[i]);
                    assert(front.contains(sub[i]));
                    let m = choose|m: int| 0 <= m < front.len() && front[m] == sub[i];
                    assert(rounds[m] == sub[i]);
                    assert(rounds[rounds.len() - 1] == last);
                }
            }
        }
    }
}

/// The rounds of the oracle, oldest first.
#[derive(Debug)]
pub struct RoundStore {
    rounds: Vec<RoundData>,
}

impl View for RoundStore {
    type V = Seq<RoundDataView>;

    closed spec fn view(&self) -> Seq<RoundDataView> {
        self.rounds@.map_values(|r: RoundData| r@)
    }
}

impl RoundStore {
    /// Round identifiers ascend strictly, so no identifier occurs twice.
    pub open spec fn wf(&self) -> bool {
        ids_increasing(self@)
    }

    /// A store without rounds.
    pub fn new() -> (res: Self)
        ensures
            res.wf(),
            res@ == Seq::<RoundDataView>::empty(),
    {
        let res = RoundStore { rounds: Vec::new() };
        assert(res@ =~= Seq::<RoundDataView>::empty());
        res
    }

    /// A store of the given rounds, or `None` unless their identifiers ascend
    /// strictly.
    pub fn from_rounds(rounds: Vec<RoundData>) -> (res: Option<Self>)
        ensures
            match res {
                Some(store) => store.wf() && store@ == rounds@.map_values(|r: RoundData| r@),
                None => !ids_increasing(rounds@.map_values(|r: RoundData| r@)),
            },
    {
        let ghost views = rounds@.map_values(|r: RoundData| r@);
        let mut i: usize = 1;
        while i < rounds.len()
            invariant
                1 <= i,
                views == rounds@.map_values(|r: RoundData| r@),
                forall|a: int, b: int|
                    0 <= a < b < i && b < views.len() ==> (#[trigger] views[a]).started_at_height
                        < (#[trigger] views[b]).started_at_height,
            decreases rounds.len() - i,
        {
            if rounds[i - 1].started_at_height >= rounds[i].started_at_height {
                proof {
                    let a = i - 1;
                    assert(views[a].started_at_height >= views[i as int].started_at_height);
                }
                return None;
            }
            proof {
                assert forall|a: int, b: int| 0 <= a < b < i + 1 && b < views.len() implies (
                #[trigger] views[a]).started_at_height < (
                #[trigger] views[b]).started_at_height by {
                    if b == i && a < i - 1 {
                        assert(views[a].started_at_height < views[i - 1].started_at_height);
                    }
                }
            }
            i += 1;
        }
        Some(RoundStore { rounds })
    }

    /// How many rounds the store holds.
    pub fn len(&self) -> (res: usize)
        ensures
            res == self@.len(),
    {
        self.rounds.len()
    }

    /// The round opened last.
    pub fn latest(&self) -> (res: Option<&RoundData>)
        ensures
            match res {
                Some(round) => self@.len() > 0 && round@ == self@.last(),
                None => self@.len() == 0,
            },
    {
        let n = self.rounds.len();
        if n == 0 {
            None
        } else {
            Some(&self.rounds[n - 1])
        }
    }

    /// The round with identifier `id`; `NotFound` where the store has none.
    pub fn get_round(&self, id: u64) -> (res: Result<&RoundData, ContractError>)
        ensures
            match res {
                Ok(round) => self@.contains(round@) && round@.started_at_height == id,
                Err(e) => e == ContractError::NotFound && !has_round(self@, id),
            },
    {
        let mut i: usize = 0;
        while i < self.rounds.len()
            invariant
                i <= self.rounds.len(),
                forall|k: int| 0 <= k < i ==> (#[trigger] self@[k]).started_at_height != id,
            decreases self.rounds.len() - i,
        {
            assert(self@[i as int] == self.rounds[i as int]@);
            if self.rounds[i].started_at_height == id {
                return Ok(&self.rounds[i]);
            }
            i += 1;
        }
        Err(ContractError::NotFound)
    }

    /// The rounds whose identifier lies between `from_id` and `to_id`, both
    /// included, each with its identifier, in ascending order of identifier.
    pub fn range_query(&self, from_id: u64, to_id: u64) -> (res: Vec<(u64, RoundData)>)
        ensures
            res@.map_values(|p: (u64, RoundData)| p.1@) == rounds_between(
                self@,
                from_id as int,
                to_id as int,
            ),
            forall|k: int|
                0 <= k < res.len() ==> (#[trigger] res[k]).0 == res[k].1.started_at_height,
            self.wf() ==> ids_increasing(res@.map_values(|p: (u64, RoundData)| p.1@)),
    {
        let mut res: Vec<(u64, RoundData)> = Vec::new();
        let mut i: usize = 0;
        proof {
            reveal(Seq::filter);
            assert(self@.take(0) =~= Seq::<RoundDataView>::empty());
            assert(res@.map_values(|p: (u64, RoundData)| p.1@) =~= Seq::<RoundDataView>::empty());
        }
        while i < self.rounds.len()
            invariant
                i <= self.rounds.len(),
                res@.map_values(|p: (u64, RoundData)| p.1@) == rounds_between(
                    self@.take(i as int),
                    from_id as int,
                    to_id as int,
                ),
                forall|k: int|
                    0 <= k < res.len() ==> (#[trigger] res[k]).0 == res[k].1.started_at_height,
            decreases self.rounds.len() - i,
        {
            let round = &self.rounds[i];
            let ghost before = res@.map_values(|p: (u64, RoundData)| p.1@);
            proof {
                let next = self@.take(i + 1);
                assert(next.drop_last() =~= self@.take(i as int));
                assert(next.last() == round@);
                lemma_rounds_between_step(next, from_id as int, to_id as int);
            }
            if from_id <= round.started_at_height && round.started_at_height <= to_id {
                let copy = round.clone();
                res.push((round.started_at_height, copy));
                proof {
                    assert(res@.map_values(|p: (u64, RoundData)| p.1@) =~= before.push(round@));
                }
            }
            i += 1;
        }
        proof {
            assert(self@.take(self.rounds.len() as int) =~= self@);
            lemma_rounds_between(self@, from_id as int, to_id as int);
        }
        res
    }

    /// Appends a round whose identifier is greater than every identifier in
    /// the store.
    pub fn push(&mut self, round: RoundData)
        requires
            old(self).wf(),
            old(self)@.len() > 0 ==> old(self)@.last().started_at_height < round.started_at_height,
        ensures
            final(self).wf(),
            final(self)@ == old(self)@.push(round@),
    {
        let ghost before = self@;
        let ghost added = round@;
        self.rounds.push(round);
        proof {
            let after = self@;
            assert(after =~= before.push(added));
            assert forall|i: int, j: int| 0 <= i < j < after.len() implies (
            #[trigger] after[i]).started_at_height < (#[trigger] after[j]).started_at_height by {
                if j < before.len() {
                    assert(after[i] == before[i] && after[j] == before[j]);
                } else {
                    assert(after[i] == before[i]);
                    if i < before.len() - 1 {
                        assert(before[i].started_at_height < before[before.len()
                            - 1].started_at_height);
                    }
                }
            }
        }
    }

    /// Puts `round` in the place of the round opened last, which has the same
    /// identifier.
    pub fn replace_latest(&mut self, round: RoundData)
        requires
            old(self).wf(),
            old(self)@.len() > 0,
            old(self)@.last().started_at_height == round.started_at_height,
        ensures
            final(self).wf(),
            final(self)@ == old(self)@.drop_last().push(round@),
    {
        let ghost before = self@;
        let ghost added = round@;
        self.rounds.pop();
        self.rounds.push(round);
        proof {
            let after = self@;
            assert(after =~= before.drop_last().push(added));
            assert forall|i: int, j: int| 0 <= i < j < after.len() implies (
            #[trigger] after[i]).started_at_height < (#[trigger] after[j]).started_at_height by {
                assert(after[i] == before[i]);
                assert(after[j].started_at_height == before[j].started_at_height);
            }
        }
    }
}

} // verus!
