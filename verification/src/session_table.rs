//! A small table from session names to decisions.
//!
//! Holds at most one entry per name; its abstract view is a finite map
//! from the name (as a character sequence) to the value.

use vstd::prelude::*;

verus! {

/// Entries keyed by session or client name.
pub struct SessionTable<V> {
    entries: Vec<(String, V)>,
}

/// The names of the entries, in order.
pub open spec fn names<V>(entries: Seq<(String, V)>) -> Seq<Seq<char>> {
    Seq::new(entries.len(), |i: int| entries[i].0@)
}

/// No name occurs twice.
pub open spec fn distinct_names(ks: Seq<Seq<char>>) -> bool {
    forall|i: int, j: int| 0 <= i < ks.len() && 0 <= j < ks.len() && i != j ==> ks[i] != ks[j]
}

/// The map that a list of entries stands for.
pub open spec fn table_map<V>(entries: Seq<(String, V)>) -> Map<Seq<char>, V> {
    let ks = names(entries);
    Map::new(
        |k: Seq<char>| exists|i: int| 0 <= i < ks.len() && ks[i] == k,
        |k: Seq<char>| entries[choose|i: int| 0 <= i < ks.len() && ks[i] == k].1,
    )
}

impl<V> View for SessionTable<V> {
    type V = Map<Seq<char>, V>;

    closed spec fn view(&self) -> Map<Seq<char>, V> {
        table_map(self.entries@)
    }
}

proof fn lemma_value_at<V>(entries: Seq<(String, V)>, i: int)
    requires
        distinct_names(names(entries)),
        0 <= i < entries.len(),
    ensures
        table_map(entries).dom().contains(entries[i].0@),
        table_map(entries)[entries[i].0@] == entries[i].1,
{
    let ks = names(entries);
    assert(ks[i] == entries[i].0@);
    let j = choose|j: int| 0 <= j < ks.len() && ks[j] == entries[i].0@;
    assert(j == i);
}

impl<V: Copy> SessionTable<V> {
    /// The names are distinct.
    pub closed spec fn wf(&self) -> bool {
        distinct_names(names(self.entries@))
    }

    /// An empty table.
    pub fn new() -> (t: Self)
        ensures
            t.wf(),
            t@ == Map::<Seq<char>, V>::empty(),
    {
        let t = SessionTable { entries: Vec::new() };
        assert(t@ =~= Map::<Seq<char>, V>::empty());
        t
    }

    /// The position of `name`, if present.
    fn find(&self, name: &String) -> (r: Option<usize>)
        requires
            self.wf(),
        ensures
            match r {
                Some(i) => i < self.entries@.len() && self.entries@[i as int].0@ == name@,
                None => !self@.dom().contains(name@),
            },
    {
        let n = self.entries.len();
        for i in 0..n
            invariant
                n == self.entries@.len(),
                forall|j: int| 0 <= j < i ==> self.entries@[j].0@ != name@,
        {
            if self.entries[i].0 == *name {
                return Some(i);
            }
        }
        proof {
            let ks = names(self.entries@);
            assert forall|j: int| 0 <= j < ks.len() implies ks[j] != name@ by {
                assert(ks[j] == self.entries@[j].0@);
            }
        }
        None
    }

    /// The value recorded for `name`.
    pub fn get(&self, name: &str) -> (r: Option<V>)
        requires
            self.wf(),
        ensures
            r == (if self@.dom().contains(name@) {
                Some(self@[name@])
            } else {
                None
            }),
    {
        let key = name.to_owned();
        match self.find(&key) {
            Some(i) => {
                proof {
                    lemma_value_at(self.entries@, i as int);
                }
                Some(self.entries[i].1)
            },
            None => None,
        }
    }

    /// Record `value` for `name`, replacing any earlier value.
    pub fn insert(&mut self, name: &str, value: V)
        requires
            old(self).wf(),
        ensures
            final(self).wf(),
            final(self)@ == old(self)@.insert(name@, value),
    {
        let key = name.to_owned();
        let ghost old_entries = self.entries@;
        match self.find(&key) {
            Some(i) => {
                self.entries.set(i, (key, value));
                proof {
                    let new_entries = self.entries@;
                    assert(names(new_entries) =~= names(old_entries));
                    lemma_value_at(new_entries, i as int);
                    assert forall|k: Seq<char>| #[trigger]
                        table_map(new_entries).dom().contains(k) && k != name@ implies table_map(
                        new_entries,
                    )[k] == table_map(old_entries)[k] by {
                        let ks = names(new_entries);
                        let j = choose|j: int| 0 <= j < ks.len() && ks[j] == k;
                        assert(j != i);
                        lemma_value_at(old_entries, j);
                        lemma_value_at(new_entries, j);
                    }
                    assert(table_map(new_entries) =~= table_map(old_entries).insert(
                        name@,
                        value,
                    ));
                }
            },
            None => {
                self.entries.push((key, value));
                proof {
                    let new_entries = self.entries@;
                    let ks = names(new_entries);
                    assert(names(new_entries) =~= names(old_entries).push(name@));
                    assert forall|j: int| 0 <= j < old_entries.len() implies names(old_entries)[j]
                        != name@ by {
                        if names(old_entries)[j] == name@ {
                            assert(table_map(old_entries).dom().contains(name@));
                        }
                    }
                    assert(distinct_names(ks));
                    let last = old_entries.len() as int;
                    lemma_value_at(new_entries, last);
                    assert forall|k: Seq<char>| #[trigger]
                        table_map(new_entries).dom().contains(k) && k != name@ implies table_map(
                        old_entries,
                    ).dom().contains(k) && table_map(new_entries)[k] == table_map(old_entries)[k] by {
                        let j = choose|j: int| 0 <= j < ks.len() && ks[j] == k;
                        assert(j != last);
                        assert(names(old_entries)[j] == k);
                        lemma_value_at(old_entries, j);
                        lemma_value_at(new_entries, j);
                    }
                    assert forall|k: Seq<char>| #[trigger]
                        table_map(old_entries).dom().contains(k) implies table_map(
                        new_entries,
                    ).dom().contains(k) by {
                        let j = choose|j: int|
                            0 <= j < names(old_entries).len() && names(old_entries)[j] == k;
                        assert(ks[j] == k);
                    }
                    assert(table_map(new_entries) =~= table_map(old_entries).insert(
                        name@,
                        value,
                    ));
                }
            },
        }
    }

    /// Drop the entry for `name`, if any.
    pub fn remove(&mut self, name: &str)
        requires
            old(self).wf(),
        ensures
            final(self).wf(),
            final(self)@ == old(self)@.remove(name@),
    {
        let key = name.to_owned();
        let ghost old_entries = self.entries@;
        match self.find(&key) {
            Some(i) => {
                self.entries.remove(i);
                proof {
                    let new_entries = self.entries@;
                    let oks = names(old_entries);
                    let ks = names(new_entries);
                    assert(ks =~= oks.remove(i as int));
                    assert(distinct_names(ks)) by {
                        assert forall|a: int, b: int|
                            0 <= a < ks.len() && 0 <= b < ks.len() && a != b implies ks[a]
                            != ks[b] by {
                            let a2 = if a < i { a } else { a + 1 };
                            let b2 = if b < i { b } else { b + 1 };
                            assert(ks[a] == oks[a2] && ks[b] == oks[b2]);
                        }
                    }
                    assert forall|k: Seq<char>| #[trigger]
                        table_map(new_entries).dom().contains(k) implies k != name@
                        && table_map(old_entries).dom().contains(k) && table_map(new_entries)[k]
                        == table_map(old_entries)[k] by {
                        let j = choose|j: int| 0 <= j < ks.len() && ks[j] == k;
                        let j2 = if j < i { j } else { j + 1 };
                        assert(ks[j] == oks[j2]);
                        assert(oks[i as int] == name@);
                        lemma_value_at(old_entries, j2);
                        lemma_value_at(new_entries, j);
                    }
                    assert forall|k: Seq<char>| #[trigger]
                        table_map(old_entries).dom().contains(k) && k != name@ implies table_map(
                        new_entries,
                    ).dom().contains(k) by {
                        let j = choose|j: int| 0 <= j < oks.len() && oks[j] == k;
                        assert(j != i);
                        let j1 = if j < i { j } else { j - 1 };
                        assert(ks[j1] == k);
                    }
                    assert(table_map(new_entries) =~= table_map(old_entries).remove(name@));
                }
            },
            None => {
                assert(table_map(old_entries) =~= table_map(old_entries).remove(name@));
            },
        }
    }
}

} // verus!
