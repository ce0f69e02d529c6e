//! An association table keyed by a pair of URL strings.
//!
//! Storage state (subscription edges, vote records, deletion flags, the
//! resolver cache) is held in tables of this shape.  The mathematical model
//! of a table is a `Map` from the pair of key views to the value, so every
//! state transition of the apply engine is stated as a map update.

use vstd::prelude::*;

verus! {

/// An association table: entries with a two-part string key and a value.
/// Keys of live tables are pairwise distinct (`wf`), so the table denotes
/// a map.
pub struct Table<V> {
    pub entries: Vec<(String, String, V)>,
}

/// Whether entry `e` carries key `(k1, k2)`.
pub open spec fn key_matches<V>(e: (String, String, V), k1: Seq<char>, k2: Seq<char>) -> bool {
    e.0@ == k1 && e.1@ == k2
}

/// The value stored under `(k1, k2)`: the first entry with that key.
pub open spec fn seq_lookup<V>(s: Seq<(String, String, V)>, k1: Seq<char>, k2: Seq<char>) -> Option<
    V,
>
    decreases s.len(),
{
    if s.len() == 0 {
        None
    } else if key_matches(s[0], k1, k2) {
        Some(s[0].2)
    } else {
        seq_lookup(s.drop_first(), k1, k2)
    }
}

/// No two entries carry the same key.
pub open spec fn distinct_keys<V>(s: Seq<(String, String, V)>) -> bool {
    forall|i: int, j: int|
        0 <= i < j < s.len() ==> !(s[i].0@ == s[j].0@ && s[i].1@ == s[j].1@)
}

/// `x` occurs among the views of the strings in `s`.
pub open spec fn seq_contains_str(s: Seq<String>, x: Seq<char>) -> bool {
    exists|i: int| 0 <= i < s.len() && s[i]@ == x
}

/// The string views in `s` are pairwise distinct.
pub open spec fn distinct_strs(s: Seq<String>) -> bool {
    forall|i: int, j: int| 0 <= i < j < s.len() ==> s[i]@ != s[j]@
}

/// A lookup misses exactly when no entry matches the key.
pub proof fn lemma_lookup_none<V>(s: Seq<(String, String, V)>, k1: Seq<char>, k2: Seq<char>)
    ensures
        seq_lookup(s, k1, k2) is None <==> (forall|j: int|
            0 <= j < s.len() ==> !key_matches(s[j], k1, k2)),
    decreases s.len(),
{
    if s.len() > 0 {
        lemma_lookup_none(s.drop_first(), k1, k2);
        if !key_matches(s[0], k1, k2) {
            assert(forall|j: int|
                1 <= j < s.len() ==> s.drop_first()[j - 1] == s[j]);
        }
    }
}

/// The first matching entry is the one a lookup returns.
pub proof fn lemma_lookup_at<V>(
    s: Seq<(String, String, V)>,
    k1: Seq<char>,
    k2: Seq<char>,
    i: int,
)
    requires
        0 <= i < s.len(),
        key_matches(s[i], k1, k2),
        forall|j: int| 0 <= j < i ==> !key_matches(s[j], k1, k2),
    ensures
        seq_lookup(s, k1, k2) == Some(s[i].2),
    decreases s.len(),
{
    if i > 0 {
        assert(s.drop_first()[i - 1] == s[i]);
        assert(forall|j: int| 0 <= j < i - 1 ==> s.drop_first()[j] == s[j + 1]);
        lemma_lookup_at(s.drop_first(), k1, k2, i - 1);
    }
}

/// Removing the entry that carries a key erases exactly that key: lookups
/// of every other key are unchanged.
pub proof fn lemma_lookup_remove<V>(
    s: Seq<(String, String, V)>,
    i: int,
    k1: Seq<char>,
    k2: Seq<char>,
    a: Seq<char>,
    b: Seq<char>,
)
    requires
        distinct_keys(s),
        0 <= i < s.len(),
        key_matches(s[i], k1, k2),
    ensures
        seq_lookup(s.remove(i), a, b) == if a == k1 && b == k2 {
            None::<V>
        } else {
            seq_lookup(s, a, b)
        },
    decreases s.len(),
{
    if a == k1 && b == k2 {
        lemma_lookup_none(s.remove(i), a, b);
        assert(forall|j: int|
            0 <= j < s.len() - 1 ==> s.remove(i)[j] == (if j < i {
                s[j]
            } else {
                s[j + 1]
            }));
    } else {
        if i == 0 {
            assert(s.remove(0) =~= s.drop_first());
        } else {
            if !key_matches(s[0], a, b) {
                assert(s.remove(i).drop_first() =~= s.drop_first().remove(i - 1));
                assert(s.drop_first()[i - 1] == s[i]);
                lemma_lookup_remove(s.drop_first(), i - 1, k1, k2, a, b);
            } else {
                assert(s.remove(i)[0] == s[0]);
            }
        }
    }
}

/// Appending an entry serves a key only where the table missed it before.
pub proof fn lemma_lookup_push<V>(
    s: Seq<(String, String, V)>,
    e: (String, String, V),
    a: Seq<char>,
    b: Seq<char>,
)
    ensures
        seq_lookup(s.push(e), a, b) == if seq_lookup(s, a, b) is Some {
            seq_lookup(s, a, b)
        } else if key_matches(e, a, b) {
            Some(e.2)
        } else {
            None::<V>
        },
    decreases s.len(),
{
    if s.len() == 0 {
        assert(s.push(e)[0] == e);
        assert(s.push(e).drop_first() =~= Seq::<(String, String, V)>::empty());
        if !key_matches(e, a, b) {
            assert(seq_lookup(s.push(e), a, b) == seq_lookup(
                Seq::<(String, String, V)>::empty(),
                a,
                b,
            ));
            assert(seq_lookup(Seq::<(String, String, V)>::empty(), a, b) is None);
        }
    } else {
        assert(s.push(e)[0] == s[0]);
        assert(s.push(e).drop_first() =~= s.drop_first().push(e));
        lemma_lookup_push(s.drop_first(), e, a, b);
        if !key_matches(s[0], a, b) {
            assert(seq_lookup(s.push(e), a, b) == seq_lookup(s.drop_first().push(e), a, b));
            assert(seq_lookup(s, a, b) == seq_lookup(s.drop_first(), a, b));
        }
    }
}

/// A lookup hits exactly when some entry matches the key.
pub proof fn lemma_lookup_some_iff_match<V>(
    s: Seq<(String, String, V)>,
    k1: Seq<char>,
    k2: Seq<char>,
)
    ensures
        seq_lookup(s, k1, k2) is Some <==> (exists|j: int|
            0 <= j < s.len() && key_matches(s[j], k1, k2)),
{
    lemma_lookup_none(s, k1, k2);
    if seq_lookup(s, k1, k2) is None {
    } else {
        assert(!(forall|j: int| 0 <= j < s.len() ==> !key_matches(s[j], k1, k2)));
    }
}

impl<V> Table<V> {
    /// Key uniqueness: the invariant every operation preserves.
    pub open spec fn wf(&self) -> bool {
        distinct_keys(self.entries@)
    }

    /// The value stored under `(k1, k2)`, if any.
    pub open spec fn spec_lookup(&self, k1: Seq<char>, k2: Seq<char>) -> Option<V> {
        seq_lookup(self.entries@, k1, k2)
    }

    /// The table as a map from key views to values.
    pub open spec fn map(&self) -> Map<(Seq<char>, Seq<char>), V> {
        Map::new(
            |k: (Seq<char>, Seq<char>)| seq_lookup(self.entries@, k.0, k.1) is Some,
            |k: (Seq<char>, Seq<char>)| seq_lookup(self.entries@, k.0, k.1)->Some_0,
        )
    }

    /// An empty table.
    pub fn new() -> (t: Table<V>)
        ensures
            t.wf(),
            t.map() == Map::<(Seq<char>, Seq<char>), V>::empty(),
    {
        let t = Table { entries: Vec::new() };
        proof {
            assert(t.map() =~= Map::<(Seq<char>, Seq<char>), V>::empty());
        }
        t
    }

    /// The position of the entry keyed `(k1, k2)`, if any.
    fn find(&self, k1: &String, k2: &String) -> (r: Option<usize>)
        ensures
            match r {
                Some(i) => i < self.entries@.len() && key_matches(self.entries@[i as int], k1@, k2@)
                    && (forall|j: int| 0 <= j < i ==> !key_matches(self.entries@[j], k1@, k2@)),
                None => self.spec_lookup(k1@, k2@) is None,
            },
    {
        let n = self.entries.len();
        let mut i: usize = 0;
        while i < n
            invariant
                n == self.entries@.len(),
                i <= n,
                forall|j: int| 0 <= j < i ==> !key_matches(self.entries@[j], k1@, k2@),
            decreases n - i,
        {
            if self.entries[i].0 == *k1 && self.entries[i].1 == *k2 {
                return Some(i);
            }
            i = i + 1;
        }
        proof {
            lemma_lookup_none(self.entries@, k1@, k2@);
        }
        None
    }

    /// The value stored under `(k1, k2)`, if any.
    pub fn get(&self, k1: &String, k2: &String) -> (r: Option<&V>)
        ensures
            match r {
                Some(v) => self.spec_lookup(k1@, k2@) == Some(*v),
                None => self.spec_lookup(k1@, k2@) is None,
            },
    {
        match self.find(k1, k2) {
            Some(i) => {
                proof {
                    lemma_lookup_at(self.entries@, k1@, k2@, i as int);
                }
                Some(&self.entries[i].2)
            },
            None => None,
        }
    }

    /// Whether the table holds the key `(k1, k2)`.
    pub fn contains(&self, k1: &String, k2: &String) -> (r: bool)
        ensures
            r == self.map().dom().contains((k1@, k2@)),
    {
        match self.find(k1, k2) {
            Some(i) => {
                proof {
                    lemma_lookup_at(self.entries@, k1@, k2@, i as int);
                }
                true
            },
            None => false,
        }
    }

    /// Stores `v` under `(k1, k2)`, replacing any earlier value: the model
    /// is the old map with that key bound to `v`.
    pub fn upsert(&mut self, k1: String, k2: String, v: V)
        requires
            old(self).wf(),
        ensures
            final(self).wf(),
            final(self).map() == old(self).map().insert((k1@, k2@), v),
    {
        self.remove(&k1, &k2);
        let ghost mid = self.entries@;
        let ghost mid_map = self.map();
        let ghost e = (k1, k2, v);
        proof {
            lemma_lookup_none(mid, k1@, k2@);
        }
        self.entries.push((k1, k2, v));
        proof {
            assert forall|a: Seq<char>, b: Seq<char>| true implies seq_lookup(
                self.entries@,
                a,
                b,
            ) == (if a == k1@ && b == k2@ {
                Some(e.2)
            } else {
                seq_lookup(mid, a, b)
            }) by {
                lemma_lookup_push(mid, e, a, b);
                if !(a == k1@ && b == k2@) {
                    if seq_lookup(mid, a, b) is None {
                        assert(!key_matches(e, a, b));
                    }
                }
            }
            assert forall|i: int, j: int| 0 <= i < j < self.entries@.len() implies !(
            self.entries@[i].0@ == self.entries@[j].0@ && self.entries@[i].1@
                == self.entries@[j].1@) by {
                if j == self.entries@.len() - 1 {
                    assert(forall|m: int| 0 <= m < mid.len() ==> !key_matches(mid[m], k1@, k2@));
                    assert(self.entries@[i] == mid[i]);
                } else {
                    assert(self.entries@[i] == mid[i]);
                    assert(self.entries@[j] == mid[j]);
                }
            }
            assert(final(self).map() =~= mid_map.insert((k1@, k2@), v));
            assert(mid_map.insert((k1@, k2@), v) =~= old(self).map().insert((k1@, k2@), v));
        }
    }

    /// Erases the key `(k1, k2)`: the model is the old map without it.
    pub fn remove(&mut self, k1: &String, k2: &String)
        requires
            old(self).wf(),
        ensures
            final(self).wf(),
            final(self).map() == old(self).map().remove((k1@, k2@)),
            final(self).spec_lookup(k1@, k2@) is None,
    {
        let ghost orig = self.entries@;
        match self.find(k1, k2) {
            Some(i) => {
                self.entries.remove(i);
                proof {
                    assert forall|a: Seq<char>, b: Seq<char>| true implies seq_lookup(
                        self.entries@,
                        a,
                        b,
                    ) == (if a == k1@ && b == k2@ {
                        None::<V>
                    } else {
                        seq_lookup(orig, a, b)
                    }) by {
                        lemma_lookup_remove(orig, i as int, k1@, k2@, a, b);
                    }
                    assert(forall|m: int, n: int|
                        0 <= m < n < self.entries@.len() ==> {
                            &&& self.entries@[m] == (if m < i {
                                orig[m]
                            } else {
                                orig[m + 1]
                            })
                            &&& self.entries@[n] == (if n < i {
                                orig[n]
                            } else {
                                orig[n + 1]
                            })
                        });
                    assert(final(self).map() =~= old(self).map().remove((k1@, k2@)));
                }
            },
            None => {
                proof {
                    lemma_lookup_none(orig, k1@, k2@);
                    assert(final(self).map() =~= old(self).map().remove((k1@, k2@)));
                }
            },
        }
    }

    /// All second keys paired with first key `k1`: for a table of
    /// subscription edges keyed (follower, community) this is the set of
    /// communities one follower subscribes to.
    pub fn keys_with_first(&self, k1: &String) -> (r: Vec<String>)
        requires
            self.wf(),
        ensures
            forall|x: Seq<char>| #[trigger]
                seq_contains_str(r@, x) <==> self.map().dom().contains((k1@, x)),
            distinct_strs(r@),
    {
        let n = self.entries.len();
        let mut r: Vec<String> = Vec::new();
        let mut i: usize = 0;
        while i < n
            invariant
                self.wf(),
                n == self.entries@.len(),
                i <= n,
                forall|x: Seq<char>| #[trigger]
                    seq_contains_str(r@, x) <==> (exists|j: int|
                        0 <= j < i && key_matches(self.entries@[j], k1@, x)),
                distinct_strs(r@),
            decreases n - i,
        {
            let ghost prev = r@;
            if self.entries[i].0 == *k1 {
                r.push(self.entries[i].1.clone());
                proof {
                    assert forall|x: Seq<char>| #[trigger] seq_contains_str(r@, x) implies (
                    exists|j: int| 0 <= j < i + 1 && key_matches(self.entries@[j], k1@, x)) by {
                        let w = choose|w: int| 0 <= w < r@.len() && r@[w]@ == x;
                        if w < prev.len() {
                            assert(seq_contains_str(prev, x));
                        } else {
                            assert(key_matches(self.entries@[i as int], k1@, x));
                        }
                    }
                    assert forall|x: Seq<char>|
                        (exists|j: int|
                            0 <= j < i + 1 && key_matches(
                                self.entries@[j],
                                k1@,
                                x,
                            )) implies #[trigger] seq_contains_str(r@, x) by {
                        let j = choose|j: int|
                            0 <= j < i + 1 && key_matches(self.entries@[j], k1@, x);
                        if j < i {
                            assert(seq_contains_str(prev, x));
                            let w = choose|w: int| 0 <= w < prev.len() && prev[w]@ == x;
                            assert(r@[w]@ == x);
                        } else {
                            assert(r@[r@.len() - 1]@ == x);
                        }
                    }
                    assert forall|m: int, n2: int| 0 <= m < n2 < r@.len() implies r@[m]@
                        != r@[n2]@ by {
                        if n2 == r@.len() - 1 {
                            assert(0 <= m < prev.len() && prev[m]@ == prev[m]@);
                            assert(seq_contains_str(prev, prev[m]@));
                            let jm = choose|j: int|
                                0 <= j < i && key_matches(self.entries@[j], k1@, prev[m]@);
                            assert(!(self.entries@[jm].0@ == self.entries@[i as int].0@
                                && self.entries@[jm].1@ == self.entries@[i as int].1@));
                            assert(r@[m] == prev[m]);
                            assert(r@[n2]@ == self.entries@[i as int].1@);
                        } else {
                            assert(r@[m] == prev[m]);
                            assert(r@[n2] == prev[n2]);
                        }
                    }
                }
            } else {
                proof {
                    assert forall|x: Seq<char>|
                        (exists|j: int|
                            0 <= j < i + 1 && key_matches(
                                self.entries@[j],
                                k1@,
                                x,
                            )) implies #[trigger] seq_contains_str(r@, x) by {
                        let j = choose|j: int|
                            0 <= j < i + 1 && key_matches(self.entries@[j], k1@, x);
                        assert(j < i);
                    }
                }
            }
            i = i + 1;
        }
        proof {
            assert forall|x: Seq<char>| #[trigger]
                seq_contains_str(r@, x) == self.map().dom().contains((k1@, x)) by {
                lemma_lookup_some_iff_match(self.entries@, k1@, x);
            }
        }
        r
    }

    /// All first keys paired with second key `k2`: for a table of
    /// subscription edges keyed (follower, community) this is the follower
    /// set of one community.
    pub fn keys_with_second(&self, k2: &String) -> (r: Vec<String>)
        requires
            self.wf(),
        ensures
            forall|x: Seq<char>| #[trigger]
                seq_contains_str(r@, x) <==> self.map().dom().contains((x, k2@)),
            distinct_strs(r@),
    {
        let n = self.entries.len();
        let mut r: Vec<String> = Vec::new();
        let mut i: usize = 0;
        while i < n
            invariant
                self.wf(),
                n == self.entries@.len(),
                i <= n,
                forall|x: Seq<char>| #[trigger]
                    seq_contains_str(r@, x) <==> (exists|j: int|
                        0 <= j < i && key_matches(self.entries@[j], x, k2@)),
                distinct_strs(r@),
            decreases n - i,
        {
            let ghost prev = r@;
            if self.entries[i].1 == *k2 {
                r.push(self.entries[i].0.clone());
                proof {
                    assert forall|x: Seq<char>| #[trigger] seq_contains_str(r@, x) implies (
                    exists|j: int| 0 <= j < i + 1 && key_matches(self.entries@[j], x, k2@)) by {
                        let w = choose|w: int| 0 <= w < r@.len() && r@[w]@ == x;
                        if w < prev.len() {
                            assert(seq_contains_str(prev, x));
                        } else {
                            assert(key_matches(self.entries@[i as int], x, k2@));
                        }
                    }
                    assert forall|x: Seq<char>|
                        (exists|j: int|
                            0 <= j < i + 1 && key_matches(
                                self.entries@[j],
                                x,
                                k2@,
                            )) implies #[trigger] seq_contains_str(r@, x) by {
                        let j = choose|j: int|
                            0 <= j < i + 1 && key_matches(self.entries@[j], x, k2@);
                        if j < i {
                            assert(seq_contains_str(prev, x));
                            let w = choose|w: int| 0 <= w < prev.len() && prev[w]@ == x;
                            assert(r@[w]@ == x);
                        } else {
                            assert(r@[r@.len() - 1]@ == x);
                        }
                    }
                    assert forall|m: int, n2: int| 0 <= m < n2 < r@.len() implies r@[m]@
                        != r@[n2]@ by {
                        if n2 == r@.len() - 1 {
                            assert(0 <= m < prev.len() && prev[m]@ == prev[m]@);
                            assert(seq_contains_str(prev, prev[m]@));
                            let jm = choose|j: int|
                                0 <= j < i && key_matches(self.entries@[j], prev[m]@, k2@);
                            assert(!(self.entries@[jm].0@ == self.entries@[i as int].0@
                                && self.entries@[jm].1@ == self.entries@[i as int].1@));
                            assert(r@[m] == prev[m]);
                            assert(r@[n2]@ == self.entries@[i as int].0@);
                        } else {
                            assert(r@[m] == prev[m]);
                            assert(r@[n2] == prev[n2]);
                        }
                    }
                }
            } else {
                proof {
                    assert forall|x: Seq<char>|
                        (exists|j: int|
                            0 <= j < i + 1 && key_matches(
                                self.entries@[j],
                                x,
                                k2@,
                            )) implies #[trigger] seq_contains_str(r@, x) by {
                        let j = choose|j: int|
                            0 <= j < i + 1 && key_matches(self.entries@[j], x, k2@);
                        assert(j < i);
                    }
                }
            }
            i = i + 1;
        }
        proof {
            assert forall|x: Seq<char>| #[trigger]
                seq_contains_str(r@, x) == self.map().dom().contains((x, k2@)) by {
                lemma_lookup_some_iff_match(self.entries@, x, k2@);
            }
        }
        r
    }
}

} // verus!
