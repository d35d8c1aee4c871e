use vstd::prelude::*;

verus! {

/// Who administers the feed and who writes to it.
#[derive(Debug)]
pub struct Config {
    /// The only address that may replace the controller.
    pub owner: String,
    /// The only address that may push values.
    pub controller: String,
}

/// Description of the feed and the cursor into its rounds.
#[derive(Debug)]
pub struct PriceFeedInfo {
    /// Identifier of the round recorded last. Before the first recording it
    /// holds the height of instantiation and names no round.
    pub latest_round: u64,
    pub decimals: u8,
    pub description: String,
}

/// One recorded price.
#[derive(Clone, Copy, Debug, PartialEq, Eq, Structural)]
pub struct RoundData {
    pub answer: u128,
    /// Block time of the recording, in nanoseconds since the Unix epoch.
    pub updated_at: u64,
}

/// The recorded prices, each under the height of the block that recorded it.
#[derive(Debug)]
pub struct RoundStore {
    entries: Vec<(u64, RoundData)>,
}

impl RoundStore {
    /// The identifiers in storage order.
    spec fn keys(&self) -> Seq<u64> {
        self.entries@.map_values(|e: (u64, RoundData)| e.0)
    }

    /// No identifier is stored twice.
    pub closed spec fn wf(&self) -> bool {
        self.keys().no_duplicates()
    }

    /// The recorded prices by identifier.
    pub closed spec fn view(&self) -> Map<u64, RoundData> {
        Map::new(
            |k: u64| self.keys().contains(k),
            |k: u64|
                self.entries@[choose|i: int| 0 <= i < self.keys().len() && self.keys()[i] == k].1,
        )
    }

    /// An entry of the store is what the view holds under its identifier.
    proof fn lemma_entry(&self, i: int)
        requires
            self.wf(),
            0 <= i < self.entries@.len(),
        ensures
            self@.dom().contains(self.entries@[i].0),
            self@[self.entries@[i].0] == self.entries@[i].1,
    {
        let k = self.entries@[i].0;
        assert(self.keys()[i] == k);
        let j = choose|j: int| 0 <= j < self.keys().len() && self.keys()[j] == k;
        assert(j == i);
    }

    /// A store without rounds.
    pub fn new() -> (res: Self)
        ensures
            res.wf(),
            res@ == Map::<u64, RoundData>::empty(),
    {
        let res = RoundStore { entries: Vec::new() };
        assert(res@ =~= Map::<u64, RoundData>::empty());
        res
    }

    /// Position of the round `id`.
    fn position(&self, id: u64) -> (res: Option<usize>)
        ensures
            match res {
                Some(i) => i < self.entries@.len() && self.entries@[i as int].0 == id,
                None => !self.keys().contains(id),
            },
    {
        let mut i: usize = 0;
        while i < self.entries.len()
            invariant
                i <= self.entries.len(),
                forall|k: int| 0 <= k < i ==> #[trigger] self.keys()[k] != id,
            decreases self.entries.len() - i,
        {
            assert(self.keys()[i as int] == self.entries@[i as int].0);
            if self.entries[i].0 == id {
                return Some(i);
            }
            i += 1;
        }
        None
    }

    /// The round recorded under `id`, if there is one.
    pub fn load(&self, id: u64) -> (res: Option<RoundData>)
        requires
            self.wf(),
        ensures
            match res {
                Some(round) => self@.dom().contains(id) && self@[id] == round,
                None => !self@.dom().contains(id),
            },
    {
        match self.position(id) {
            Some(i) => {
                proof {
                    self.lemma_entry(i as int);
                }
                Some(self.entries[i].1)
            },
            None => None,
        }
    }

    /// Records `round` under `id`, in place of what was recorded there.
    pub fn save(&mut self, id: u64, round: RoundData)
        requires
            old(self).wf(),
        ensures
            final(self).wf(),
            final(self)@ == old(self)@.insert(id, round),
    {
        let ghost before = *self;
        match self.position(id) {
            Some(i) => {
                self.entries.remove(i);
                self.entries.insert(i, (id, round));
                proof {
                    assert(self.keys() =~= before.keys());
                    assert(before.keys()[i as int] == id);
                    assert(self@.dom() =~= before@.insert(id, round).dom());
                    assert forall|k: u64| #[trigger]
                        self@.dom().contains(k) implies self@[k] == before@.insert(
                        id,
                        round,
                    )[k] by {
                        let j = choose|j: int| 0 <= j < self.keys().len() && self.keys()[j] == k;
                        self.lemma_entry(j);
                        if k != id {
                            before.lemma_entry(j);
                        } else {
                            assert(self.keys()[i as int] == id);
                        }
                    }
                    assert(self@ =~= before@.insert(id, round));
                }
            },
            None => {
                self.entries.push((id, round));
                proof {
                    assert(self.keys() =~= before.keys().push(id));
                    assert forall|k: u64|
                        self@.dom().contains(k) <==> #[trigger] before@.insert(
                            id,
                            round,
                        ).dom().contains(k) by {
                        if before.keys().contains(k) {
                            let j = choose|j: int|
                                0 <= j < before.keys().len() && before.keys()[j] == k;
                            assert(self.keys()[j] == k);
                        }
                        if k == id {
                            assert(self.keys()[before.keys().len() as int] == id);
                        }
                    }
                    assert forall|k: u64| #[trigger]
                        self@.dom().contains(k) implies self@[k] == before@.insert(
                        id,
                        round,
                    )[k] by {
                        let j = choose|j: int| 0 <= j < self.keys().len() && self.keys()[j] == k;
                        self.lemma_entry(j);
                        if k != id {
                            before.lemma_entry(j);
                        }
                    }
                    assert(self@ =~= before@.insert(id, round));
                }
            },
        }
    }

    /// The round with the greatest identifier between `from` and `to`, both
    /// included, with that identifier; `None` where no round lies in the
    /// range.
    pub fn last_between(&self, from: u64, to: u64) -> (res: Option<(u64, RoundData)>)
        requires
            self.wf(),
        ensures
            res == last_between(self@, from as int, to as int),
    {
        let mut best: Option<(u64, RoundData)> = None;
        let mut i: usize = 0;
        while i < self.entries.len()
            invariant
                self.wf(),
                i <= self.entries.len(),
                match best {
                    Some(found) => exists|j: int|
                        0 <= j < i && self.entries@[j] == found && from <= found.0 <= to,
                    None => true,
                },
                forall|j: int|
                    0 <= j < i && from <= (#[trigger] self.entries@[j]).0 <= to ==> best is Some
                        && self.entries@[j].0 <= best->Some_0.0,
            decreases self.entries.len() - i,
        {
            let entry = self.entries[i];
            if from <= entry.0 && entry.0 <= to {
                let better = match best {
                    Some(found) => found.0 < entry.0,
                    None => true,
                };
                if better {
                    best = Some(entry);
                }
            }
            i += 1;
        }
        proof {
            match best {
                Some(found) => {
                    let j = choose|j: int|
                        0 <= j < self.entries@.len() && self.entries@[j] == found && from
                            <= found.0 <= to;
                    self.lemma_entry(j);
                    assert forall|k: u64| self@.dom().contains(k) && from <= k <= to implies k
                        <= found.0 by {
                        let m = choose|m: int| 0 <= m < self.keys().len() && self.keys()[m] == k;
                        assert(self.entries@[m].0 == k);
                    }
                    lemma_last_between(self@, from as int, to as int, found.0);
                },
                None => {
                    assert forall|k: u64| self@.dom().contains(k) implies !(from <= k <= to) by {
                        let m = choose|m: int| 0 <= m < self.keys().len() && self.keys()[m] == k;
                        assert(self.entries@[m].0 == k);
                    }
                },
            }
        }
        best
    }
}

/// `k` is the greatest identifier of `rounds` between `from` and `to`.
pub open spec fn is_last_between(rounds: Map<u64, RoundData>, from: int, to: int, k: u64) -> bool {
    &&& rounds.dom().contains(k)
    &&& from <= k <= to
    &&& forall|j: u64| rounds.dom().contains(j) && from <= j <= to ==> j <= k
}

/// The round with the greatest identifier between `from` and `to`, both
/// included, with that identifier, if any round lies in the range.
pub open spec fn last_between(rounds: Map<u64, RoundData>, from: int, to: int) -> Option<
    (u64, RoundData),
> {
    if exists|k: u64| is_last_between(rounds, from, to, k) {
        let k = choose|k: u64| is_last_between(rounds, from, to, k);
        Some((k, rounds[k]))
    } else {
        None
    }
}

/// The greatest identifier in a range is unique, so `last_between` returns
/// it.
pub proof fn lemma_last_between(rounds: Map<u64, RoundData>, from: int, to: int, k: u64)
    requires
        is_last_between(rounds, from, to, k),
    ensures
        last_between(rounds, from, to) == Some((k, rounds[k])),
{
    let c = choose|c: u64| is_last_between(rounds, from, to, c);
    assert(c <= k && k <= c);
}

/// Everything the price feed keeps between calls.
#[derive(Debug)]
pub struct FeedState {
    pub config: Config,
    pub price_feed_info: PriceFeedInfo,
    pub round_data: RoundStore,
}

/// Mathematical value of a [`FeedState`].
pub struct FeedView {
    pub owner: Seq<char>,
    pub controller: Seq<char>,
    pub latest_round: u64,
    pub decimals: u8,
    pub description: Seq<char>,
    pub rounds: Map<u64, RoundData>,
}

impl View for FeedState {
    type V = FeedView;

    open spec fn view(&self) -> FeedView {
        FeedView {
            owner: self.config.owner@,
            controller: self.config.controller@,
            latest_round: self.price_feed_info.latest_round,
            decimals: self.price_feed_info.decimals,
            description: self.price_feed_info.description@,
            rounds: self.round_data@,
        }
    }
}

impl FeedState {
    /// The round store is well formed.
    pub open spec fn wf(&self) -> bool {
        self.round_data.wf()
    }
}

} // verus!
