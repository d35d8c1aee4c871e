//! The feeder registry: the set of addresses that may submit observations.

use vstd::prelude::*;

verus! {

/// The authorized feeders. Membership is all that counts: the registry keeps
/// each address once and promises no order.
#[derive(Debug)]
pub struct FeederRegistry {
    feeders: Vec<String>,
}

impl FeederRegistry {
    /// The stored addresses, in storage order.
    spec fn names(&self) -> Seq<Seq<char>> {
        self.feeders@.map_values(|s: String| s@)
    }

    /// No address is stored twice.
    pub closed spec fn wf(&self) -> bool {
        self.names().no_duplicates()
    }

    /// The set of authorized addresses.
    pub closed spec fn view(&self) -> Set<Seq<char>> {
        self.names().to_set()
    }

    /// The set of feeders is finite.
    pub proof fn lemma_finite(&self)
        ensures
            self@.finite(),
    {
        vstd::seq_lib::seq_to_set_is_finite(self.names());
    }

    /// A registry without feeders.
    pub fn new() -> (res: Self)
        ensures
            res.wf(),
            res@ == Set::<Seq<char>>::empty(),
    {
        let res = FeederRegistry { feeders: Vec::new() };
        assert(res.names() =~= Seq::<Seq<char>>::empty());
        assert(res@ =~= Set::<Seq<char>>::empty());
        res
    }

    /// Position of `feeder` among the stored addresses.
    fn position(&self, feeder: &String) -> (res: Option<usize>)
        ensures
            match res {
                Some(i) => i < self.names().len() && self.names()[i as int] == feeder@,
                None => !self.names().contains(feeder@),
            },
    {
        let mut i: usize = 0;
        while i < self.feeders.len()
            invariant
                i <= self.feeders.len(),
                forall|k: int| 0 <= k < i ==> #[trigger] self.names()[k] != feeder@,
            decreases self.feeders.len() - i,
        {
            assert(self.names()[i as int] == self.feeders[i as int]@);
            if self.feeders[i] == *feeder {
                return Some(i);
            }
            i += 1;
        }
        None
    }

    /// Whether `feeder` is authorized.
    pub fn is_feeder(&self, feeder: &String) -> (res: bool)
        ensures
            res == self@.contains(feeder@),
    {
        self.position(feeder).is_some()
    }

    /// Authorizes `feeder` or withdraws its authorization. Asking for the state
    /// that the feeder already has changes nothing.
    pub fn set_feeder(&mut self, feeder: String, authorized: bool)
        requires
            old(self).wf(),
        ensures
            final(self).wf(),
            final(self)@ == if authorized {
                old(self)@.insert(feeder@)
            } else {
                old(self)@.remove(feeder@)
            },
    {
        let found = self.position(&feeder);
        let ghost before = self.names();
        match found {
            Some(i) => {
                if authorized {
                    assert(self@ =~= self@.insert(feeder@));
                } else {
                    self.feeders.remove(i);
                    proof {
                        let after = self.names();
                        assert(after =~= before.remove(i as int));
                        assert(after.no_duplicates());
                        assert(after.to_set() =~= before.to_set().remove(feeder@)) by {
                            assert forall|a: Seq<char>|
                                after.to_set().contains(a) <==> before.to_set().remove(
                                    feeder@,
                                ).contains(a) by {
                                if after.contains(a) {
                                    let k = choose|k: int| 0 <= k < after.len() && after[k] == a;
                                    if k < i {
                                        assert(before[k] == a);
                                    } else {
                                        assert(before[k + 1] == a);
                                    }
                                }
                                if before.contains(a) && a != feeder@ {
                                    let k = choose|k: int| 0 <= k < before.len() && before[k] == a;
                                    if k < i {
                                        assert(after[k] == a);
                                    } else {
                                        assert(after[k - 1] == a);
                                    }
                                }
                            }
                        }
                    }
                }
            },
            None => {
                if authorized {
                    let ghost name = feeder@;
                    self.feeders.push(feeder);
                    proof {
                        let after = self.names();
                        assert(after =~= before.push(name));
                        assert(after.to_set() =~= before.to_set().insert(name)) by {
                            assert forall|a: Seq<char>|
                                after.to_set().contains(a) <==> before.to_set().insert(
                                    name,
                                ).contains(a) by {
                                if after.contains(a) {
                                    let k = choose|k: int| 0 <= k < after.len() && after[k] == a;
                                    if k < before.len() {
                                        assert(before[k] == a);
                                    }
                                }
                                if before.contains(a) {
                                    let k = choose|k: int| 0 <= k < before.len() && before[k] == a;
                                    assert(after[k] == a);
                                }
                                if a == name {
                                    assert(after[before.len() as int] == a);
                                }
                            }
                        }
                    }
                } else {
                    assert(self@ =~= self@.remove(feeder@));
                }
            },
        }
    }

    /// How many feeders are authorized.
    pub fn count(&self) -> (res: usize)
        requires
            self.wf(),
        ensures
            res == self@.len(),
    {
        proof {
            self.names().unique_seq_to_set();
        }
        self.feeders.len()
    }

    /// The authorized addresses, each once.
    pub fn members(&self) -> (res: Vec<String>)
        requires
            self.wf(),
        ensures
            res@.map_values(|s: String| s@).no_duplicates(),
            res@.map_values(|s: String| s@).to_set() == self@,
    {
        let mut res: Vec<String> = Vec::new();
        let mut i: usize = 0;
        while i < self.feeders.len()
            invariant
                i <= self.feeders.len(),
                res.len() == i,
                forall|k: int| 0 <= k < i ==> (#[trigger] res[k])@ == self.feeders[k]@,
            decreases self.feeders.len() - i,
        {
            res.push(self.feeders[i].clone());
            i += 1;
        }
        assert(res@.map_values(|s: String| s@) =~= self.names());
        res
    }
}

} // verus!
