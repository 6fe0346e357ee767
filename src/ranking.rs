//! Dense numbering of the bots that take part in a rating computation.
use std::collections::HashMap;
use vstd::prelude::*;

verus! {

broadcast use vstd::std_specs::hash::group_hash_axioms;

/// Tokenizes player ids to a set of consecutive numbers: each id gets the
/// next free index the first time it is seen, and keeps it.
pub struct PlayerTokenizer {
    id_to_ix: HashMap<i32, usize>,
    ids: Vec<i32>,
}

impl View for PlayerTokenizer {
    /// The ids seen so far, each at its index.
    type V = Seq<i32>;

    closed spec fn view(&self) -> Seq<i32> {
        self.ids@
    }
}

impl PlayerTokenizer {
    /// The map and the vector agree: each id at index `ix` maps to `ix`,
    /// and the map holds nothing else.
    pub closed spec fn wf(&self) -> bool {
        &&& forall|ix: int|
            0 <= ix < self.ids@.len() ==> {
                &&& self.id_to_ix@.contains_key(#[trigger] self.ids@[ix])
                &&& self.id_to_ix@[self.ids@[ix]] == ix
            }
        &&& forall|id: i32| #[trigger]
            self.id_to_ix@.contains_key(id) ==> {
                &&& self.id_to_ix@[id] < self.ids@.len()
                &&& self.ids@[self.id_to_ix@[id] as int] == id
            }
    }

    pub fn new() -> (r: Self)
        ensures
            r.wf(),
            r@ == Seq::<i32>::empty(),
    {
        PlayerTokenizer { id_to_ix: HashMap::new(), ids: Vec::new() }
    }

    /// The index of `id`: the one it already has, or the next free one.
    pub fn tokenize(&mut self, id: i32) -> (r: usize)
        requires
            old(self).wf(),
            old(self)@.len() < usize::MAX,
        ensures
            final(self).wf(),
            final(self)@ == (if old(self)@.contains(id) {
                old(self)@
            } else {
                old(self)@.push(id)
            }),
            r < final(self)@.len(),
            final(self)@[r as int] == id,
            final(self)@.no_duplicates(),
    {
        proof {
            self.lemma_no_duplicates();
        }
        match self.id_to_ix.get(&id) {
            Some(ix) => {
                proof {
                    assert(self.ids@[*ix as int] == id);
                }
                *ix
            },
            None => {
                proof {
                    if self.ids@.contains(id) {
                        let j = choose|j: int| 0 <= j < self.ids@.len() && self.ids@[j] == id;
                        assert(self.id_to_ix@.contains_key(self.ids@[j]));
                    }
                }
                let ix = self.ids.len();
                self.ids.push(id);
                self.id_to_ix.insert(id, ix);
                proof {
                    assert forall|j: int| 0 <= j < self.ids@.len() implies {
                        &&& self.id_to_ix@.contains_key(#[trigger] self.ids@[j])
                        &&& self.id_to_ix@[self.ids@[j]] == j
                    } by {
                        if j < ix {
                            assert(old(self).ids@[j] == self.ids@[j]);
                            assert(old(self).id_to_ix@.contains_key(self.ids@[j]));
                        }
                    }
                    self.lemma_no_duplicates();
                }
                ix
            },
        }
    }

    proof fn lemma_no_duplicates(&self)
        requires
            self.wf(),
        ensures
            self@.no_duplicates(),
    {
        assert forall|i: int, j: int|
            0 <= i < self.ids@.len() && 0 <= j < self.ids@.len() && i != j implies self.ids@[i]
            != self.ids@[j] by {
            assert(self.id_to_ix@.contains_key(self.ids@[i]));
            assert(self.id_to_ix@.contains_key(self.ids@[j]));
        }
    }

    /// The id at index `ix`.
    pub fn detokenize(&self, ix: usize) -> (r: i32)
        requires
            ix < self@.len(),
        ensures
            r == self@[ix as int],
    {
        self.ids[ix]
    }

    /// How many distinct ids have been seen.
    pub fn player_count(&self) -> (r: usize)
        ensures
            r == self@.len(),
    {
        self.ids.len()
    }
}

} // verus!
