//! A small map keyed by window label, with at most one entry per label.

use vstd::prelude::*;
use crate::text::str_eq;

verus! {

/// Entry `i` of `s` has label `k`.
pub open spec fn holds_at<V>(s: Seq<(String, V)>, i: int, k: Seq<char>) -> bool {
    0 <= i < s.len() && s[i].0@ == k
}

/// No label occurs twice in `s`.
pub open spec fn labels_unique<V>(s: Seq<(String, V)>) -> bool {
    forall|i: int, j: int| 0 <= i < j < s.len() ==> #[trigger] s[i].0@ != #[trigger] s[j].0@
}

pub open spec fn has_label<V>(s: Seq<(String, V)>, k: Seq<char>) -> bool {
    exists|i: int| holds_at(s, i, k)
}

pub open spec fn index_of_label<V>(s: Seq<(String, V)>, k: Seq<char>) -> int {
    choose|i: int| holds_at(s, i, k)
}

/// The map an entry list stands for.
pub open spec fn entries_map<V>(s: Seq<(String, V)>) -> Map<Seq<char>, V> {
    Map::new(|k: Seq<char>| has_label(s, k), |k: Seq<char>| s[index_of_label(s, k)].1)
}

proof fn lemma_index_unique<V>(s: Seq<(String, V)>, i: int, k: Seq<char>)
    requires
        labels_unique(s),
        holds_at(s, i, k),
    ensures
        index_of_label(s, k) == i,
{
    let c = index_of_label(s, k);
    assert(holds_at(s, c, k));
    if c < i {
        assert(s[c].0@ != s[i].0@);
    } else if c > i {
        assert(s[i].0@ != s[c].0@);
    }
}

/// Entries keyed by label; no label occurs twice.
pub struct LabelMap<V> {
    entries: Vec<(String, V)>,
}

impl<V> LabelMap<V> {
    #[verifier::type_invariant]
    closed spec fn keys_unique(self) -> bool {
        labels_unique(self.entries@)
    }

    /// The map's contents: each label present maps to its value.
    pub closed spec fn as_map(self) -> Map<Seq<char>, V> {
        entries_map(self.entries@)
    }

    pub fn new() -> (r: LabelMap<V>)
        ensures
            r.as_map() == Map::<Seq<char>, V>::empty(),
    {
        let r = LabelMap { entries: Vec::new() };
        assert(r.as_map() =~= Map::<Seq<char>, V>::empty());
        r
    }

    fn index_of(&self, label: &str) -> (r: Option<usize>)
        ensures
            r matches Some(i) ==> holds_at(self.entries@, i as int, label@) && index_of_label(
                self.entries@,
                label@,
            ) == i,
            r is None ==> !has_label(self.entries@, label@),
    {
        proof {
            use_type_invariant(self);
        }
        let n = self.entries.len();
        let mut i: usize = 0;
        while i < n
            invariant
                n == self.entries@.len(),
                i <= n,
                labels_unique(self.entries@),
                forall|k: int| 0 <= k < i ==> !#[trigger] holds_at(self.entries@, k, label@),
            decreases n - i,
        {
            if str_eq(self.entries[i].0.as_str(), label) {
                proof {
                    lemma_index_unique(self.entries@, i as int, label@);
                }
                return Some(i);
            }
            i = i + 1;
        }
        None
    }

    pub fn get(&self, label: &str) -> (r: Option<&V>)
        ensures
            r is Some == self.as_map().contains_key(label@),
            r matches Some(v) ==> *v == self.as_map()[label@],
    {
        match self.index_of(label) {
            Some(i) => Some(&self.entries[i].1),
            None => None,
        }
    }

    /// Replace the value of `label`, or add `label` after the other entries.
    pub fn insert(&mut self, label: &str, value: V)
        ensures
            final(self).as_map() == old(self).as_map().insert(label@, value),
            final(self).label_seq() == if old(self).as_map().contains_key(label@) {
                old(self).label_seq()
            } else {
                old(self).label_seq().push(label@)
            },
            final(self).first_value() == if old(self).label_seq().len() == 0
                || old(self).label_seq()[0] == label@ {
                Some(value)
            } else {
                old(self).first_value()
            },
    {
        proof {
            use_type_invariant(&*self);
        }
        let idx = self.index_of(label);
        let mut entries: Vec<(String, V)> = Vec::new();
        std::mem::swap(&mut entries, &mut self.entries);
        let ghost s0 = entries@;
        let key = String::from_str(label);
        match idx {
            Some(i) => {
                entries.set(i, (key, value));
            },
            None => {
                entries.push((key, value));
            },
        }
        let ghost s1 = entries@;
        assert(labels_unique(s1)) by {
            assert forall|a: int, b: int| 0 <= a < b < s1.len() implies #[trigger] s1[a].0@
                != #[trigger] s1[b].0@ by {
                if idx is None && b == s0.len() {
                    assert(!holds_at(s0, a, label@));
                } else {
                    assert(s0[a].0@ != s0[b].0@);
                }
            }
        }
        let ghost pos: int = match idx {
            Some(i) => i as int,
            None => s0.len() as int,
        };
        assert(holds_at(s1, pos, label@));
        proof {
            lemma_index_unique(s1, pos, label@);
        }
        assert(entries_map(s1) =~= entries_map(s0).insert(label@, value)) by {
            assert forall|k: Seq<char>| k != label@ implies (has_label(s1, k) == has_label(s0, k)
                && (has_label(s1, k) ==> s1[index_of_label(s1, k)].1 == s0[index_of_label(
                s0,
                k,
            )].1)) by {
                if has_label(s1, k) {
                    let j = index_of_label(s1, k);
                    assert(holds_at(s0, j, k));
                    lemma_index_unique(s0, j, k);
                }
                if has_label(s0, k) {
                    let j = index_of_label(s0, k);
                    assert(holds_at(s1, j, k));
                    lemma_index_unique(s1, j, k);
                }
            }
        }
        self.entries = entries;
    }

    /// Labels in entry order.
    pub closed spec fn label_seq(self) -> Seq<Seq<char>> {
        self.entries@.map_values(|e: (String, V)| e.0@)
    }

    /// The value of the first entry, if any: an entry of the map, picked by
    /// the order the entries were added in.
    pub closed spec fn first_value(self) -> Option<V> {
        if self.entries@.len() > 0 {
            Some(self.entries@[0].1)
        } else {
            None
        }
    }

    pub fn len(&self) -> (r: usize)
        ensures
            r == self.label_seq().len(),
    {
        self.entries.len()
    }

    /// The `i`-th entry.
    pub fn entry(&self, i: usize) -> (r: (&str, &V))
        requires
            i < self.label_seq().len(),
        ensures
            r.0@ == self.label_seq()[i as int],
            self.as_map().contains_key(r.0@),
            *r.1 == self.as_map()[r.0@],
    {
        proof {
            use_type_invariant(self);
            assert(holds_at(self.entries@, i as int, self.entries@[i as int].0@));
            lemma_index_unique(self.entries@, i as int, self.entries@[i as int].0@);
        }
        (self.entries[i].0.as_str(), &self.entries[i].1)
    }

    /// The first entry's value, if any: one of the map's values, and there
    /// is one exactly when the map is not empty.
    pub fn first(&self) -> (r: Option<&V>)
        ensures
            r is Some == self.first_value() is Some,
            r matches Some(v) ==> *v == self.first_value()->0,
            r is None <==> self.as_map().dom() == Set::<Seq<char>>::empty(),
            r matches Some(v) ==> exists|k: Seq<char>|
                self.as_map().contains_key(k) && #[trigger] self.as_map()[k] == *v,
    {
        proof {
            use_type_invariant(self);
        }
        if self.entries.len() > 0 {
            let ghost k = self.entries@[0].0@;
            proof {
                assert(holds_at(self.entries@, 0, k));
                lemma_index_unique(self.entries@, 0, k);
                assert(self.as_map().contains_key(k));
                assert(self.as_map().dom().contains(k));
                assert(self.as_map()[k] == self.entries@[0].1);
            }
            Some(&self.entries[0].1)
        } else {
            assert(self.as_map().dom() =~= Set::<Seq<char>>::empty());
            None
        }
    }
}

} // verus!
