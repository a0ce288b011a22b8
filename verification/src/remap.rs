//! The identity remapper.
//!
//! While one push is processed, each habit or goal local identifier is
//! mapped to the canonical id minted for it. The remapper lives for one
//! push only and is discarded afterwards; a lookup miss is not an error
//! (the dependent record is skipped by the engine).
//!
//! The view is a `Map` from local identifier to canonical id; a repeated
//! local identifier overwrites the earlier entry, so the last occurrence
//! wins, exactly as repeated inserts into a map.

use vstd::prelude::*;

verus! {

pub struct IdRemapper {
    entries: Vec<(String, u64)>,
}

/// The map an association list denotes: later entries win.
pub open spec fn assoc_map(entries: Seq<(Seq<char>, u64)>) -> Map<Seq<char>, int>
    decreases entries.len(),
{
    if entries.len() == 0 {
        Map::empty()
    } else {
        assoc_map(entries.drop_last()).insert(entries.last().0, entries.last().1 as int)
    }
}

proof fn lemma_assoc_map_match(entries: Seq<(Seq<char>, u64)>, i: int)
    requires
        0 <= i < entries.len(),
        forall|j: int| i < j < entries.len() ==> #[trigger] entries[j].0 != entries[i].0,
    ensures
        assoc_map(entries).contains_key(entries[i].0),
        assoc_map(entries)[entries[i].0] == entries[i].1 as int,
    decreases entries.len(),
{
    if i == entries.len() - 1 {
    } else {
        assert(entries.drop_last()[i] == entries[i]);
        lemma_assoc_map_match(entries.drop_last(), i);
    }
}

proof fn lemma_assoc_map_absent(entries: Seq<(Seq<char>, u64)>, k: Seq<char>)
    requires
        forall|j: int| 0 <= j < entries.len() ==> #[trigger] entries[j].0 != k,
    ensures
        !assoc_map(entries).contains_key(k),
    decreases entries.len(),
{
    if entries.len() > 0 {
        lemma_assoc_map_absent(entries.drop_last(), k);
    }
}

impl View for IdRemapper {
    type V = Map<Seq<char>, int>;

    closed spec fn view(&self) -> Map<Seq<char>, int> {
        assoc_map(self.entries.deep_view())
    }
}

impl IdRemapper {
    pub fn new() -> (r: IdRemapper)
        ensures
            r@ == Map::<Seq<char>, int>::empty(),
    {
        let r = IdRemapper { entries: Vec::new() };
        proof {
            assert(r.entries.deep_view() =~= Seq::<(Seq<char>, u64)>::empty());
        }
        r
    }

    /// Record the canonical id minted for a local identifier. A repeated
    /// local identifier overwrites the earlier mapping.
    pub fn insert(&mut self, local_id: String, canonical: u64)
        ensures
            final(self)@ == old(self)@.insert(local_id@, canonical as int),
    {
        let ghost before = self.entries.deep_view();
        let ghost key = local_id@;
        self.entries.push((local_id, canonical));
        proof {
            let after = self.entries.deep_view();
            assert(after.drop_last() =~= before);
            assert(after.last() == (key, canonical));
        }
    }

    /// The canonical id a local identifier was remapped to, if it was seen.
    pub fn lookup(&self, local_id: &String) -> (r: Option<u64>)
        ensures
            match r {
                Some(v) => self@.contains_key(local_id@) && self@[local_id@] == v as int,
                None => !self@.contains_key(local_id@),
            },
    {
        let n = self.entries.len();
        let mut i: usize = n;
        while i > 0
            invariant
                i <= n,
                n == self.entries.len(),
                forall|j: int|
                    i <= j < n ==> #[trigger] self.entries.deep_view()[j].0 != local_id@,
            decreases i,
        {
            i = i - 1;
            if self.entries[i].0 == *local_id {
                proof {
                    lemma_assoc_map_match(self.entries.deep_view(), i as int);
                }
                return Some(self.entries[i].1);
            }
        }
        proof {
            lemma_assoc_map_absent(self.entries.deep_view(), local_id@);
        }
        None
    }
}

} // verus!
