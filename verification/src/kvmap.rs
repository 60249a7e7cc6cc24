//! A map from text keys to text values that keeps its entries in insertion
//! order, each key at most once.

use vstd::prelude::*;
use crate::text::chars_eq;
use crate::text::to_chars;

verus! {

/// Text-keyed map with entries in first-insertion order.
#[derive(Debug)]
pub struct KvMap {
    entries: Vec<(String, String)>,
}

/// The entries as pairs of character sequences.
pub open spec fn pair_views(es: Seq<(String, String)>) -> Seq<(Seq<char>, Seq<char>)> {
    es.map_values(|e: (String, String)| (e.0@, e.1@))
}

/// No key occurs twice.
pub open spec fn keys_unique(ps: Seq<(Seq<char>, Seq<char>)>) -> bool {
    forall|i: int, j: int| 0 <= i < ps.len() && 0 <= j < ps.len() && i != j ==> ps[i].0 != ps[j].0
}

/// The map the entries stand for.
pub open spec fn pairs_map(ps: Seq<(Seq<char>, Seq<char>)>) -> Map<Seq<char>, Seq<char>> {
    Map::new(
        |k: Seq<char>| exists|i: int| 0 <= i < ps.len() && ps[i].0 == k,
        |k: Seq<char>| ps[choose|i: int| 0 <= i < ps.len() && ps[i].0 == k].1,
    )
}

/// With unique keys, the entry at `i` gives the map's value for its key.
pub proof fn lemma_pairs_map_at(ps: Seq<(Seq<char>, Seq<char>)>, i: int)
    requires
        keys_unique(ps),
        0 <= i < ps.len(),
    ensures
        pairs_map(ps).contains_key(ps[i].0),
        pairs_map(ps)[ps[i].0] == ps[i].1,
{
    let k = ps[i].0;
    assert(exists|j: int| 0 <= j < ps.len() && ps[j].0 == k);
    let j = choose|j: int| 0 <= j < ps.len() && ps[j].0 == k;
    assert(j == i);
}

impl View for KvMap {
    type V = Map<Seq<char>, Seq<char>>;

    open spec fn view(&self) -> Map<Seq<char>, Seq<char>> {
        pairs_map(self.pairs())
    }
}

impl KvMap {
    /// The entries, in order.
    pub closed spec fn pairs(&self) -> Seq<(Seq<char>, Seq<char>)> {
        pair_views(self.entries@)
    }

    #[verifier::type_invariant]
    closed spec fn wf(&self) -> bool {
        keys_unique(self.pairs())
    }

    /// An empty map.
    pub fn new() -> (r: Self)
        ensures
            r@ == Map::<Seq<char>, Seq<char>>::empty(),
            r.pairs().len() == 0,
    {
        let r = KvMap { entries: Vec::new() };
        assert(r@ =~= Map::<Seq<char>, Seq<char>>::empty());
        r
    }

    /// The number of entries.
    pub fn len(&self) -> (n: usize)
        ensures
            n == self.pairs().len(),
            keys_unique(self.pairs()),
    {
        proof {
            use_type_invariant(self);
        }
        self.entries.len()
    }

    /// No entries.
    pub fn is_empty(&self) -> (b: bool)
        ensures
            b == (self.pairs().len() == 0),
            b == (self@.dom() == Set::<Seq<char>>::empty()),
    {
        if self.entries.len() == 0 {
            assert(self@.dom() =~= Set::<Seq<char>>::empty());
            true
        } else {
            assert(self@.dom().contains(self.pairs()[0].0));
            false
        }
    }

    /// The index of the entry for `key`.
    fn index_of(&self, key: &str) -> (r: Option<usize>)
        ensures
            r matches Some(i) ==> i < self.pairs().len() && self.pairs()[i as int].0 == key@,
            r is None ==> forall|i: int| 0 <= i < self.pairs().len() ==> self.pairs()[i].0 != key@,
    {
        let kv = to_chars(key);
        let mut i: usize = 0;
        while i < self.entries.len()
            invariant
                i <= self.entries.len(),
                kv@ == key@,
                forall|j: int| 0 <= j < i ==> self.pairs()[j].0 != key@,
            decreases self.entries.len() - i,
        {
            let ek = to_chars(self.entries[i].0.as_str());
            if chars_eq(ek.as_slice(), kv.as_slice()) {
                return Some(i);
            }
            i = i + 1;
        }
        None
    }

    /// The value for `key`.
    pub fn get(&self, key: &str) -> (r: Option<&String>)
        ensures
            r is Some <==> self@.contains_key(key@),
            r matches Some(v) ==> v@ == self@[key@],
    {
        proof {
            use_type_invariant(self);
        }
        match self.index_of(key) {
            Some(i) => {
                proof {
                    lemma_pairs_map_at(self.pairs(), i as int);
                }
                Some(&self.entries[i].1)
            },
            None => None,
        }
    }

    /// Whether `key` has an entry.
    pub fn contains_key(&self, key: &str) -> (b: bool)
        ensures
            b == self@.contains_key(key@),
    {
        self.get(key).is_some()
    }

    /// Set the value for `key`; a new key goes last, an existing one keeps
    /// its place.
    pub fn insert(&mut self, key: String, value: String)
        ensures
            final(self)@ == old(self)@.insert(key@, value@),
    {
        proof {
            use_type_invariant(&*self);
        }
        let ghost old_ps = self.pairs();
        let ghost mut pos: int = 0;
        match self.index_of(key.as_str()) {
            Some(i) => {
                proof {
                    pos = i as int;
                }
                let mut entries: Vec<(String, String)> = Vec::new();
                std::mem::swap(&mut entries, &mut self.entries);
                entries.set(i, (key, value));
                assert(pair_views(entries@) =~= old_ps.update(i as int, (key@, value@)));
                self.entries = entries;
            },
            None => {
                proof {
                    pos = old_ps.len() as int;
                }
                let mut entries: Vec<(String, String)> = Vec::new();
                std::mem::swap(&mut entries, &mut self.entries);
                entries.push((key, value));
                assert(pair_views(entries@) =~= old_ps.push((key@, value@)));
                self.entries = entries;
            },
        }
        proof {
            let ps = self.pairs();
            assert(keys_unique(ps));
            assert forall|k: Seq<char>| #[trigger] self@.contains_key(k) == old(self)@.insert(
                key@,
                value@,
            ).contains_key(k) by {
                if k == key@ {
                    assert(0 <= pos < ps.len() && ps[pos].0 == k);
                } else if old(self)@.contains_key(k) {
                    let j = choose|j: int| 0 <= j < old_ps.len() && old_ps[j].0 == k;
                    assert(ps[j].0 == k);
                } else if self@.contains_key(k) {
                    let j = choose|j: int| 0 <= j < ps.len() && ps[j].0 == k;
                    assert(j < old_ps.len() && old_ps[j].0 == k);
                }
            }
            assert forall|k: Seq<char>| #[trigger] self@.contains_key(k) implies self@[k] == old(
                self,
            )@.insert(key@, value@)[k] by {
                let j = choose|j: int| 0 <= j < ps.len() && ps[j].0 == k;
                lemma_pairs_map_at(ps, j);
                if k != key@ {
                    assert(j < old_ps.len() && old_ps[j] == ps[j]);
                    lemma_pairs_map_at(old_ps, j);
                }
            }
            assert(self@ =~= old(self)@.insert(key@, value@));
        }
    }

    /// The key and value of entry `i`.
    pub fn entry(&self, i: usize) -> (r: (&String, &String))
        requires
            i < self.pairs().len(),
        ensures
            (r.0@, r.1@) == self.pairs()[i as int],
            self@.contains_key(r.0@),
            self@[r.0@] == r.1@,
    {
        proof {
            use_type_invariant(self);
            lemma_pairs_map_at(self.pairs(), i as int);
        }
        (&self.entries[i].0, &self.entries[i].1)
    }

    /// The keys, in entry order.
    pub fn keys(&self) -> (r: Vec<String>)
        ensures
            r@.len() == self.pairs().len(),
            forall|i: int| 0 <= i < r@.len() ==> r@[i]@ == self.pairs()[i].0,
    {
        let mut r: Vec<String> = Vec::new();
        let mut i: usize = 0;
        while i < self.entries.len()
            invariant
                i <= self.entries.len(),
                r@.len() == i,
                forall|j: int| 0 <= j < i ==> r@[j]@ == self.pairs()[j].0,
            decreases self.entries.len() - i,
        {
            r.push(self.entries[i].0.clone());
            i = i + 1;
        }
        r
    }

    /// Every key of the map is the key of some entry, and every entry's key
    /// is in the map.
    pub proof fn lemma_dom(&self, k: Seq<char>)
        ensures
            self@.contains_key(k) <==> exists|i: int| 0 <= i < self.pairs().len() && self.pairs()[i].0 == k,
    {
    }
}

} // verus!
