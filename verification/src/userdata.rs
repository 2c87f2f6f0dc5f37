//! A typed side table for per-resource user data.
//!
//! Callers often want to attach a value of their own to a resource. Instead
//! of stashing a reinterpreted pointer inside the engine object, the table
//! keys owned values by resource identifier and looks them up by key. Its
//! mathematical model is the finite map from identifiers to values.

use vstd::prelude::*;

verus! {

/// One keyed entry of the table.
struct Entry<V> {
    key: usize,
    value: V,
}

/// The map an entry sequence denotes: later entries would win, though the
/// table never keeps two entries with one key.
spec fn map_of<V>(s: Seq<Entry<V>>) -> Map<usize, V>
    decreases s.len(),
{
    if s.len() == 0 {
        Map::empty()
    } else {
        map_of(s.drop_last()).insert(s.last().key, s.last().value)
    }
}

/// No two entries share a key.
spec fn unique_keys<V>(s: Seq<Entry<V>>) -> bool {
    forall|i: int, j: int|
        0 <= i < j < s.len() ==> (#[trigger] s[i]).key != (#[trigger] s[j]).key
}

/// With unique keys, the denoted map holds exactly the entries' keys, each
/// bound to its entry's value.
proof fn lemma_map_of_characterization<V>(s: Seq<Entry<V>>)
    requires
        unique_keys(s),
    ensures
        forall|k: usize|
            #[trigger] map_of(s).dom().contains(k) <==> exists|i: int|
                0 <= i < s.len() && (#[trigger] s[i]).key == k,
        forall|i: int| 0 <= i < s.len() ==> map_of(s)[(#[trigger] s[i]).key] == s[i].value,
    decreases s.len(),
{
    if s.len() > 0 {
        let t = s.drop_last();
        assert(t.len() == s.len() - 1);
        assert(forall|i: int| 0 <= i < t.len() ==> #[trigger] t[i] == s[i]);
        assert(unique_keys(t));
        lemma_map_of_characterization(t);
        assert(map_of(s) == map_of(t).insert(s.last().key, s.last().value));
        assert forall|k: usize| #[trigger] map_of(s).dom().contains(k) implies exists|i: int|
            0 <= i < s.len() && (#[trigger] s[i]).key == k by {
            if k == s.last().key {
                assert(s[s.len() - 1].key == k);
            } else {
                assert(map_of(t).dom().contains(k));
                let i = choose|i: int| 0 <= i < t.len() && (#[trigger] t[i]).key == k;
                assert(s[i].key == k);
            }
        }
        assert forall|k: usize|
            (exists|i: int| 0 <= i < s.len() && (#[trigger] s[i]).key == k) implies #[trigger]
        map_of(s).dom().contains(k) by {
            let i = choose|i: int| 0 <= i < s.len() && (#[trigger] s[i]).key == k;
            if i < s.len() - 1 {
                assert(t[i].key == k);
                assert(map_of(t).dom().contains(k));
            }
        }
        assert forall|i: int| 0 <= i < s.len() implies map_of(s)[(#[trigger] s[i]).key]
            == s[i].value by {
            if i < s.len() - 1 {
                assert(t[i] == s[i]);
                assert(map_of(t)[t[i].key] == t[i].value);
                assert(s[i].key != s.last().key);
            }
        }
    }
}

/// A table of owned values keyed by resource identifier.
pub struct UserDataTable<V> {
    entries: Vec<Entry<V>>,
}

impl<V> View for UserDataTable<V> {
    type V = Map<usize, V>;

    closed spec fn view(&self) -> Map<usize, V> {
        map_of(self.entries@)
    }
}

impl<V> UserDataTable<V> {
    /// The table keeps one entry per key.
    pub closed spec fn wf(&self) -> bool {
        unique_keys(self.entries@)
    }

    /// An empty table.
    pub fn new() -> (t: UserDataTable<V>)
        ensures
            t.wf(),
            t@ == Map::<usize, V>::empty(),
    {
        UserDataTable { entries: Vec::new() }
    }

    /// Binds `value` to `id`, replacing any earlier binding.
    pub fn set(&mut self, id: usize, value: V)
        requires
            old(self).wf(),
        ensures
            final(self).wf(),
            final(self)@ == old(self)@.insert(id, value),
    {
        proof {
            lemma_map_of_characterization(self.entries@);
        }
        let n: usize = self.entries.len();
        let mut i: usize = 0;
        while i < n
            invariant
                i <= n,
                n == self.entries@.len(),
                self == old(self),
                unique_keys(self.entries@),
                forall|j: int| 0 <= j < i ==> (#[trigger] self.entries@[j]).key != id,
            decreases n - i,
        {
            if self.entries[i].key == id {
                let entry = &mut self.entries[i];
                entry.value = value;
                proof {
                    let s0 = old(self).entries@;
                    let s2 = self.entries@;
                    lemma_map_of_characterization(s0);
                    assert(s2.len() == s0.len());
                    assert(forall|j: int|
                        0 <= j < s2.len() && j != i ==> #[trigger] s2[j] == s0[j]);
                    assert(s2[i as int].key == id && s2[i as int].value == value);
                    assert forall|p: int, q: int| 0 <= p < q < s2.len() implies (
                    #[trigger] s2[p]).key != (#[trigger] s2[q]).key by {
                        assert(s2[p].key == s0[p].key && s2[q].key == s0[q].key);
                    }
                    assert(unique_keys(s2));
                    lemma_map_of_characterization(s2);
                    assert forall|k: usize| #[trigger] map_of(s2).dom().contains(k) implies map_of(
                        s0,
                    ).insert(id, value).dom().contains(k) by {
                        let j = choose|j: int| 0 <= j < s2.len() && (#[trigger] s2[j]).key == k;
                        if j != i {
                            assert(s0[j].key == k);
                            assert(map_of(s0).dom().contains(k));
                        }
                    }
                    assert forall|k: usize| map_of(s0).insert(id, value).dom().contains(
                        k,
                    ) implies #[trigger] map_of(s2).dom().contains(k) by {
                        if k == id {
                            assert(s2[i as int].key == k);
                        } else {
                            assert(map_of(s0).dom().contains(k));
                            let j = choose|j: int|
                                0 <= j < s0.len() && (#[trigger] s0[j]).key == k;
                            assert(j != i);
                            assert(s2[j].key == k);
                        }
                    }
                    assert forall|k: usize| #[trigger]
                        map_of(s2).dom().contains(k) implies map_of(s2)[k] == map_of(s0).insert(
                        id,
                        value,
                    )[k] by {
                        let j = choose|j: int| 0 <= j < s2.len() && (#[trigger] s2[j]).key == k;
                        assert(map_of(s2)[s2[j].key] == s2[j].value);
                        if j == i {
                            assert(k == id);
                            assert(map_of(s2)[k] == value);
                        } else {
                            assert(k != id) by {
                                assert(s0[j].key == k);
                                assert(s0[i as int].key == id);
                            }
                            assert(s0[j].key == k);
                            assert(map_of(s0)[s0[j].key] == s0[j].value);
                            assert(map_of(s2)[k] == s2[j].value);
                        }
                    }
                    assert(map_of(s2) =~= map_of(s0).insert(id, value));
                }
                return ;
            }
            i = i + 1;
        }
        self.entries.push(Entry { key: id, value });
        proof {
            let s0 = old(self).entries@;
            let s2 = self.entries@;
            assert(s2.drop_last() =~= s0);
            assert(s2.last().key == id && s2.last().value == value);
            assert(map_of(s2) == map_of(s0).insert(id, value));
            assert forall|p: int, q: int| 0 <= p < q < s2.len() implies (#[trigger] s2[p]).key
                != (#[trigger] s2[q]).key by {
                if q == s2.len() - 1 {
                    assert(s2[p] == s0[p]);
                    assert(s0[p].key != id);
                } else {
                    assert(s2[p] == s0[p] && s2[q] == s0[q]);
                }
            }
            assert(unique_keys(s2));
        }
    }

    /// The value bound to `id`, if any.
    pub fn get(&self, id: usize) -> (r: Option<&V>)
        requires
            self.wf(),
        ensures
            match r {
                Some(value) => self@.dom().contains(id) && *value == self@[id],
                None => !self@.dom().contains(id),
            },
    {
        proof {
            lemma_map_of_characterization(self.entries@);
        }
        let n: usize = self.entries.len();
        let mut i: usize = 0;
        while i < n
            invariant
                i <= n,
                n == self.entries@.len(),
                unique_keys(self.entries@),
                forall|j: int| 0 <= j < i ==> (#[trigger] self.entries@[j]).key != id,
            decreases n - i,
        {
            if self.entries[i].key == id {
                proof {
                    lemma_map_of_characterization(self.entries@);
                    assert(self.entries@[i as int].key == id);
                    assert(map_of(self.entries@).dom().contains(id));
                    assert(map_of(self.entries@)[self.entries@[i as int].key]
                        == self.entries@[i as int].value);
                }
                return Some(&self.entries[i].value);
            }
            i = i + 1;
        }
        proof {
            lemma_map_of_characterization(self.entries@);
            if map_of(self.entries@).dom().contains(id) {
                let j = choose|j: int|
                    0 <= j < self.entries@.len() && (#[trigger] self.entries@[j]).key == id;
                assert(false);
            }
        }
        None
    }

    /// Removes and returns the value bound to `id`, if any.
    pub fn remove(&mut self, id: usize) -> (r: Option<V>)
        requires
            old(self).wf(),
        ensures
            final(self).wf(),
            final(self)@ == old(self)@.remove(id),
            match r {
                Some(value) => old(self)@.dom().contains(id) && value == old(self)@[id],
                None => !old(self)@.dom().contains(id),
            },
    {
        proof {
            lemma_map_of_characterization(self.entries@);
        }
        let n: usize = self.entries.len();
        let mut i: usize = 0;
        while i < n
            invariant
                i <= n,
                n == self.entries@.len(),
                self == old(self),
                unique_keys(self.entries@),
                forall|j: int| 0 <= j < i ==> (#[trigger] self.entries@[j]).key != id,
            decreases n - i,
        {
            if self.entries[i].key == id {
                proof {
                    lemma_map_of_characterization(self.entries@);
                    assert(self.entries@[i as int].key == id);
                    assert(map_of(self.entries@).dom().contains(id));
                    assert(map_of(self.entries@)[self.entries@[i as int].key]
                        == self.entries@[i as int].value);
                }
                let entry = self.entries.remove(i);
                proof {
                    let s0 = old(self).entries@;
                    let s2 = self.entries@;
                    lemma_map_of_characterization(s0);
                    assert(s2.len() == s0.len() - 1);
                    assert forall|j: int| 0 <= j < s2.len() implies #[trigger] s2[j] == (if j
                        < i {
                        s0[j]
                    } else {
                        s0[j + 1]
                    }) by {}
                    assert forall|p: int, q: int| 0 <= p < q < s2.len() implies (
                    #[trigger] s2[p]).key != (#[trigger] s2[q]).key by {
                        if q < i {
                            assert(s2[p] == s0[p] && s2[q] == s0[q]);
                        } else if p < i {
                            assert(s2[p] == s0[p] && s2[q] == s0[q + 1]);
                        } else {
                            assert(s2[p] == s0[p + 1] && s2[q] == s0[q + 1]);
                        }
                    }
                    assert(unique_keys(s2));
                    lemma_map_of_characterization(s2);
                    assert forall|k: usize| #[trigger] map_of(s2).dom().contains(k) implies map_of(
                        s0,
                    ).remove(id).dom().contains(k) by {
                        let j = choose|j: int| 0 <= j < s2.len() && (#[trigger] s2[j]).key == k;
                        if j < i {
                            assert(s0[j].key == k);
                            assert(s0[i as int].key == id);
                            assert(map_of(s0).dom().contains(k));
                        } else {
                            assert(s0[j + 1].key == k);
                            assert(s0[i as int].key == id);
                            assert(map_of(s0).dom().contains(k));
                        }
                    }
                    assert forall|k: usize| map_of(s0).remove(id).dom().contains(
                        k,
                    ) implies #[trigger] map_of(s2).dom().contains(k) by {
                        assert(map_of(s0).dom().contains(k));
                        let j = choose|j: int| 0 <= j < s0.len() && (#[trigger] s0[j]).key == k;
                        assert(k != id);
                        assert(j != i);
                        if j < i {
                            assert(s2[j].key == k);
                        } else {
                            assert(s2[j - 1].key == k);
                        }
                    }
                    assert forall|k: usize| #[trigger]
                        map_of(s2).dom().contains(k) implies map_of(s2)[k] == map_of(s0).remove(
                        id,
                    )[k] by {
                        let j = choose|j: int| 0 <= j < s2.len() && (#[trigger] s2[j]).key == k;
                        assert(map_of(s2)[s2[j].key] == s2[j].value);
                        if j < i {
                            assert(s0[j].key == k);
                            assert(map_of(s0)[s0[j].key] == s0[j].value);
                        } else {
                            assert(s0[j + 1].key == k);
                            assert(map_of(s0)[s0[j + 1].key] == s0[j + 1].value);
                        }
                        assert(s0[i as int].key == id);
                    }
                    assert(map_of(s2) =~= map_of(s0).remove(id));
                }
                return Some(entry.value);
            }
            i = i + 1;
        }
        proof {
            lemma_map_of_characterization(self.entries@);
            if map_of(self.entries@).dom().contains(id) {
                let j = choose|j: int|
                    0 <= j < self.entries@.len() && (#[trigger] self.entries@[j]).key == id;
                assert(false);
            }
            assert(map_of(self.entries@) =~= map_of(self.entries@).remove(id));
        }
        None
    }
}

} // verus!
