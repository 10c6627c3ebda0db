//! The `[cvars]` table of the settings file: names to values, in name order, no name twice.
use crate::text::{
    comes_before, lower, precedes, precedes_asymmetric, precedes_irreflexive, precedes_total,
    precedes_transitive, same_text,
};
use vstd::prelude::*;

verus! {

/// One list of entries is in strictly ascending name order.
pub open spec fn ascending(entries: Seq<(String, String)>) -> bool {
    forall|i: int, j: int| 0 <= i < j < entries.len() ==> precedes((#[trigger] entries[i]).0@, (#[trigger] entries[j]).0@)
}

/// `name` stands at place `i`.
pub open spec fn stands_at(entries: Seq<(String, String)>, name: Seq<char>, i: int) -> bool {
    0 <= i < entries.len() && entries[i].0@ == name
}

/// The entries as a map from name to value.
pub open spec fn map_of(entries: Seq<(String, String)>) -> Map<Seq<char>, Seq<char>> {
    Map::new(
        |name: Seq<char>| exists|i: int| #[trigger] stands_at(entries, name, i),
        |name: Seq<char>| entries[choose|i: int| #[trigger] stands_at(entries, name, i)].1@,
    )
}

/// The texts of a list of entries.
pub open spec fn entry_views(entries: Seq<(String, String)>) -> Seq<(Seq<char>, Seq<char>)> {
    entries.map_values(|e: (String, String)| (e.0@, e.1@))
}

/// A map's entries in ascending name order.
pub open spec fn ordered(m: Map<Seq<char>, Seq<char>>) -> Seq<(Seq<char>, Seq<char>)> {
    entry_views(choose|list: Seq<(String, String)>| #[trigger] ascending(list) && map_of(list) == m)
}

/// `key` is the first name of the map, in name order, that reads `name` up to ASCII case.
pub open spec fn is_spelling(m: Map<Seq<char>, Seq<char>>, name: Seq<char>, key: Seq<char>) -> bool {
    &&& m.contains_key(key)
    &&& lower(key) == lower(name)
    &&& forall|other: Seq<char>| #[trigger] m.contains_key(other) && lower(other) == lower(name)
        ==> other == key || precedes(key, other)
}

/// The spelling under which the map holds `name`, if it holds it at all.
pub open spec fn spelling(m: Map<Seq<char>, Seq<char>>, name: Seq<char>) -> Option<Seq<char>> {
    if exists|key: Seq<char>| #[trigger] is_spelling(m, name, key) {
        Some(choose|key: Seq<char>| #[trigger] is_spelling(m, name, key))
    } else {
        None
    }
}

/// Only one name can be the spelling.
pub proof fn spelling_is_unique(m: Map<Seq<char>, Seq<char>>, name: Seq<char>, key: Seq<char>)
    requires
        is_spelling(m, name, key),
    ensures
        spelling(m, name) == Some(key),
{
    let other = choose|other: Seq<char>| #[trigger] is_spelling(m, name, other);
    if other != key {
        precedes_asymmetric(key, other);
    }
}

/// What the map holds for `name`, whatever its spelling.
pub open spec fn value_for(m: Map<Seq<char>, Seq<char>>, name: Seq<char>) -> Option<Seq<char>> {
    match spelling(m, name) {
        Some(key) => Some(m[key]),
        None => None,
    }
}

/// A settings table.
#[derive(Debug)]
pub struct ConfigMap {
    entries: Vec<(String, String)>,
}

impl View for ConfigMap {
    type V = Map<Seq<char>, Seq<char>>;

    closed spec fn view(&self) -> Map<Seq<char>, Seq<char>> {
        map_of(self.entries@)
    }
}

impl ConfigMap {
    /// Names ascend strictly.
    pub closed spec fn wf(self) -> bool {
        ascending(self.entries@)
    }

    /// The table with nothing in it.
    pub fn new() -> (r: ConfigMap)
        ensures
            r.wf(),
            r@ == Map::<Seq<char>, Seq<char>>::empty(),
    {
        let r = ConfigMap { entries: Vec::new() };
        proof {
            assert(r@ =~= Map::<Seq<char>, Seq<char>>::empty());
        }
        r
    }

    /// The table of a list of entries; a later entry replaces an earlier one of its name.
    pub fn from_entries(list: &Vec<(String, String)>) -> (r: ConfigMap)
        ensures
            r.wf(),
            r@ == inserted(list@, list@.len() as int),
    {
        let mut r = ConfigMap::new();
        let mut i: usize = 0;
        while i < list.len()
            invariant
                i <= list.len(),
                r.wf(),
                r@ == inserted(list@, i as int),
            decreases list.len() - i,
        {
            r.insert(list[i].0.clone(), list[i].1.clone());
            i = i + 1;
        }
        r
    }

    /// Whether nothing is held.
    pub fn is_empty(&self) -> (r: bool)
        requires
            self.wf(),
        ensures
            r == (self@ == Map::<Seq<char>, Seq<char>>::empty()),
    {
        let r = self.entries.len() == 0;
        proof {
            if r {
                assert(self@ =~= Map::<Seq<char>, Seq<char>>::empty());
            } else {
                assert(stands_at(self.entries@, self.entries@[0].0@, 0));
                assert(self@.contains_key(self.entries@[0].0@));
            }
        }
        r
    }

    /// The value under exactly this name.
    pub fn get(&self, name: &str) -> (r: Option<String>)
        requires
            self.wf(),
        ensures
            match r {
                Some(v) => self@.contains_key(name@) && self@[name@] == v@,
                None => !self@.contains_key(name@),
            },
    {
        match self.position(name) {
            Some(i) => {
                proof {
                    lemma_value_at(self.entries@, i as int);
                }
                Some(self.entries[i].1.clone())
            },
            None => None,
        }
    }

    fn position(&self, name: &str) -> (r: Option<usize>)
        requires
            self.wf(),
        ensures
            match r {
                Some(i) => stands_at(self.entries@, name@, i as int),
                None => !self@.contains_key(name@),
            },
    {
        let mut i: usize = 0;
        while i < self.entries.len()
            invariant
                i <= self.entries.len(),
                forall|j: int| 0 <= j < i ==> (#[trigger] self.entries@[j]).0@ != name@,
            decreases self.entries.len() - i,
        {
            if same_text(self.entries[i].0.as_str(), name) {
                return Some(i);
            }
            i = i + 1;
        }
        proof {
            assert forall|j: int| !(#[trigger] stands_at(self.entries@, name@, j)) by {};
        }
        None
    }

    /// The spelling under which `name` is held.
    pub fn spelling_of(&self, name: &str) -> (r: Option<String>)
        requires
            self.wf(),
        ensures
            match r {
                Some(key) => spelling(self@, name@) == Some(key@),
                None => spelling(self@, name@) is None,
            },
    {
        let mut i: usize = 0;
        while i < self.entries.len()
            invariant
                i <= self.entries.len(),
                self.wf(),
                forall|j: int| 0 <= j < i ==> lower((#[trigger] self.entries@[j]).0@) != lower(name@),
            decreases self.entries.len() - i,
        {
            if self.entries[i].0.as_str().eq_ignore_ascii_case(name) {
                proof {
                    let key = self.entries@[i as int].0@;
                    assert(stands_at(self.entries@, key, i as int));
                    assert forall|other: Seq<char>| #[trigger] self@.contains_key(other) && lower(other)
                        == lower(name@) implies other == key || precedes(key, other) by {
                        let j = choose|j: int| #[trigger] stands_at(self.entries@, other, j);
                        assert(stands_at(self.entries@, other, j));
                        if j != i {
                            assert(self.entries@[j].0@ == other);
                            assert(!(j < i));
                        }
                    };
                    assert(is_spelling(self@, name@, key));
                    spelling_is_unique(self@, name@, key);
                }
                return Some(self.entries[i].0.clone());
            }
            i = i + 1;
        }
        proof {
            assert forall|key: Seq<char>| !(#[trigger] is_spelling(self@, name@, key)) by {
                if is_spelling(self@, name@, key) {
                    let j = choose|j: int| #[trigger] stands_at(self.entries@, key, j);
                    assert(stands_at(self.entries@, key, j));
                }
            };
        }
        None
    }

    /// Puts a value under a name, replacing the one that stood there.
    pub fn insert(&mut self, name: String, value: String)
        requires
            old(self).wf(),
        ensures
            final(self).wf(),
            final(self)@ == old(self)@.insert(name@, value@),
    {
        let ghost before = self.entries@;
        let mut i: usize = 0;
        while i < self.entries.len() && comes_before(self.entries[i].0.as_str(), name.as_str())
            invariant
                i <= self.entries.len(),
                self.entries@ == before,
                forall|j: int| 0 <= j < i ==> precedes((#[trigger] before[j]).0@, name@),
            decreases self.entries.len() - i,
        {
            i = i + 1;
        }
        let ghost key = name@;
        let ghost held = value@;
        if i < self.entries.len() && same_text(self.entries[i].0.as_str(), name.as_str()) {
            self.entries.set(i, (name, value));
            proof {
                lemma_replace(before, self.entries@, i as int, key, held);
            }
        } else {
            self.entries.insert(i, (name, value));
            proof {
                lemma_place(before, self.entries@, i as int, key, held);
            }
        }
    }

    /// Takes a name out.
    pub fn remove(&mut self, name: &str)
        requires
            old(self).wf(),
        ensures
            final(self).wf(),
            final(self)@ == old(self)@.remove(name@),
    {
        let ghost before = self.entries@;
        match self.position(name) {
            Some(i) => {
                let _gone = self.entries.remove(i);
                proof {
                    lemma_take(before, self.entries@, i as int, name@);
                }
            },
            None => {
                proof {
                    assert(self@.remove(name@) =~= self@);
                }
            },
        }
    }

    /// A second table with the same contents.
    pub fn copy(&self) -> (r: ConfigMap)
        requires
            self.wf(),
        ensures
            r.wf(),
            r@ == self@,
    {
        let mut entries: Vec<(String, String)> = Vec::new();
        let mut i: usize = 0;
        while i < self.entries.len()
            invariant
                i <= self.entries.len(),
                entries@.len() == i,
                forall|j: int| 0 <= j < i ==> #[trigger] entries@[j] == self.entries@[j],
            decreases self.entries.len() - i,
        {
            let name = self.entries[i].0.clone();
            let value = self.entries[i].1.clone();
            entries.push((name, value));
            i = i + 1;
        }
        proof {
            assert(entries@ =~= self.entries@);
        }
        ConfigMap { entries }
    }

    /// The contents as a list in name order.
    pub fn entries(&self) -> (r: Vec<(String, String)>)
        requires
            self.wf(),
        ensures
            ascending(r@),
            map_of(r@) == self@,
            entry_views(r@) == ordered(self@),
    {
        let copy = self.copy();
        proof {
            lemma_ordered(copy.entries@);
        }
        copy.entries
    }
}

/// The map that `n` entries of a list build up, one after the other.
pub open spec fn inserted(list: Seq<(String, String)>, n: int) -> Map<Seq<char>, Seq<char>>
    decreases n,
{
    if n <= 0 {
        Map::empty()
    } else {
        inserted(list, n - 1).insert(list[n - 1].0@, list[n - 1].1@)
    }
}

/// In an ascending list each entry is what its name maps to.
pub(crate) proof fn lemma_value_at(entries: Seq<(String, String)>, i: int)
    requires
        ascending(entries),
        0 <= i < entries.len(),
    ensures
        map_of(entries).contains_key(entries[i].0@),
        map_of(entries)[entries[i].0@] == entries[i].1@,
{
    let name = entries[i].0@;
    assert(stands_at(entries, name, i));
    let j = choose|j: int| #[trigger] stands_at(entries, name, j);
    assert(stands_at(entries, name, j));
    if j < i {
        precedes_irreflexive(name);
        assert(precedes(entries[j].0@, entries[i].0@));
    } else if i < j {
        precedes_irreflexive(name);
        assert(precedes(entries[i].0@, entries[j].0@));
    }
}

proof fn lemma_agree_up_to(a: Seq<(String, String)>, b: Seq<(String, String)>, n: int)
    requires
        ascending(a),
        ascending(b),
        map_of(a) == map_of(b),
        0 <= n <= a.len(),
    ensures
        n <= b.len(),
        forall|i: int| 0 <= i < n ==> (#[trigger] a[i]).0@ == b[i].0@,
    decreases n,
{
    if n > 0 {
        lemma_agree_up_to(a, b, n - 1);
        let i = n - 1;
        lemma_value_at(a, i);
        let k = choose|k: int| #[trigger] stands_at(b, a[i].0@, k);
        assert(stands_at(b, a[i].0@, k));
        precedes_irreflexive(a[i].0@);
        if k < i {
            assert(a[k].0@ == b[k].0@);
            assert(precedes(a[k].0@, a[i].0@));
        }
        if k > i {
            assert(precedes(b[i].0@, b[k].0@));
            lemma_value_at(b, i);
            let l = choose|l: int| #[trigger] stands_at(a, b[i].0@, l);
            assert(stands_at(a, b[i].0@, l));
            precedes_irreflexive(b[i].0@);
            if l < i {
                assert(a[l].0@ == b[l].0@);
                assert(precedes(b[l].0@, b[i].0@));
            } else if l > i {
                assert(precedes(a[i].0@, a[l].0@));
                precedes_asymmetric(a[i].0@, b[i].0@);
            }
        }
    }
}

/// An ascending list is the ordered list of its map.
pub(crate) proof fn lemma_ordered(entries: Seq<(String, String)>)
    requires
        ascending(entries),
    ensures
        entry_views(entries) == ordered(map_of(entries)),
{
    let m = map_of(entries);
    let other = choose|list: Seq<(String, String)>| #[trigger] ascending(list) && map_of(list) == m;
    assert(ascending(other) && map_of(other) == m);
    lemma_agree_up_to(entries, other, entries.len() as int);
    lemma_agree_up_to(other, entries, other.len() as int);
    assert forall|i: int| 0 <= i < entries.len() implies (#[trigger] entry_views(entries)[i]) == entry_views(other)[i] by {
        assert(entries[i].0@ == other[i].0@);
        lemma_value_at(entries, i);
        lemma_value_at(other, i);
    };
    assert(entry_views(entries) =~= entry_views(other));
}

/// A map is the map of an ascending list where it holds just the list's entries.
pub(crate) proof fn lemma_same_map(a: Seq<(String, String)>, m: Map<Seq<char>, Seq<char>>)
    requires
        ascending(a),
        forall|i: int| 0 <= i < a.len() ==> m.contains_key((#[trigger] a[i]).0@) && m[a[i].0@] == a[i].1@,
        forall|name: Seq<char>| #[trigger] m.contains_key(name) ==> exists|i: int| #[trigger] stands_at(a, name, i),
    ensures
        map_of(a) == m,
{
    assert forall|name: Seq<char>| #[trigger] map_of(a).contains_key(name) == m.contains_key(name) by {
        if map_of(a).contains_key(name) {
            let i = choose|i: int| #[trigger] stands_at(a, name, i);
            assert(stands_at(a, name, i));
            assert(a[i].0@ == name);
        }
    };
    assert forall|name: Seq<char>| #[trigger] map_of(a).contains_key(name) implies map_of(a)[name] == m[name] by {
        let i = choose|i: int| #[trigger] stands_at(a, name, i);
        assert(stands_at(a, name, i));
        assert(a[i].0@ == name);
        lemma_value_at(a, i);
    };
    assert(map_of(a) =~= m);
}

proof fn lemma_replace(before: Seq<(String, String)>, after: Seq<(String, String)>, i: int, name: Seq<char>, value: Seq<char>)
    requires
        ascending(before),
        0 <= i < before.len(),
        before[i].0@ == name,
        after.len() == before.len(),
        after[i].0@ == name,
        after[i].1@ == value,
        forall|j: int| 0 <= j < before.len() && j != i ==> #[trigger] after[j] == before[j],
    ensures
        ascending(after),
        map_of(after) == map_of(before).insert(name, value),
{
    assert forall|j: int| 0 <= j < after.len() implies (#[trigger] after[j]).0@ == before[j].0@ by {};
    assert forall|j: int, k: int| 0 <= j < k < after.len() implies precedes((#[trigger] after[j]).0@, (#[trigger] after[k]).0@) by {
        assert(precedes(before[j].0@, before[k].0@));
    };
    let m = map_of(before).insert(name, value);
    assert forall|j: int| 0 <= j < after.len() implies m.contains_key((#[trigger] after[j]).0@) && m[after[j].0@] == after[j].1@ by {
        lemma_value_at(before, j);
        if j != i {
            precedes_irreflexive(name);
            if j < i {
                assert(precedes(before[j].0@, before[i].0@));
            } else {
                assert(precedes(before[i].0@, before[j].0@));
            }
        }
    };
    assert forall|k: Seq<char>| #[trigger] m.contains_key(k) implies exists|j: int| #[trigger] stands_at(after, k, j) by {
        if k == name {
            assert(stands_at(after, k, i));
        } else {
            let j = choose|j: int| #[trigger] stands_at(before, k, j);
            assert(stands_at(before, k, j));
            assert(stands_at(after, k, j));
        }
    };
    lemma_same_map(after, m);
}

proof fn lemma_place(before: Seq<(String, String)>, after: Seq<(String, String)>, at: int, name: Seq<char>, value: Seq<char>)
    requires
        ascending(before),
        0 <= at <= before.len(),
        forall|j: int| 0 <= j < at ==> precedes((#[trigger] before[j]).0@, name),
        at < before.len() ==> !precedes(before[at].0@, name) && before[at].0@ != name,
        after.len() == before.len() + 1,
        after[at].0@ == name,
        after[at].1@ == value,
        after == before.insert(at, after[at]),
    ensures
        ascending(after),
        map_of(after) == map_of(before).insert(name, value),
{
    assert forall|j: int| at <= j < before.len() implies precedes(name, (#[trigger] before[j]).0@) by {
        precedes_total(before[at].0@, name);
        if j > at {
            assert(precedes(before[at].0@, before[j].0@));
            precedes_transitive(name, before[at].0@, before[j].0@);
        }
    };
    assert forall|j: int| 0 <= j < at implies #[trigger] after[j] == before[j] by {};
    assert forall|j: int| at < j < after.len() implies #[trigger] after[j] == before[j - 1] by {};
    assert forall|j: int, k: int| 0 <= j < k < after.len() implies precedes((#[trigger] after[j]).0@, (#[trigger] after[k]).0@) by {
        let jj = if j < at { j } else { j - 1 };
        let kk = if k < at { k } else { k - 1 };
        if j == at {
            assert(precedes(name, before[kk].0@));
        } else if k == at {
            assert(precedes(before[jj].0@, name));
        } else {
            assert(precedes(before[jj].0@, before[kk].0@));
        }
    };
    let m = map_of(before).insert(name, value);
    assert forall|j: int| 0 <= j < after.len() implies m.contains_key((#[trigger] after[j]).0@) && m[after[j].0@] == after[j].1@ by {
        precedes_irreflexive(name);
        if j < at {
            lemma_value_at(before, j);
            assert(precedes(before[j].0@, name));
        } else if j > at {
            lemma_value_at(before, j - 1);
            assert(precedes(name, before[j - 1].0@));
        }
    };
    assert forall|k: Seq<char>| #[trigger] m.contains_key(k) implies exists|j: int| #[trigger] stands_at(after, k, j) by {
        if k == name {
            assert(stands_at(after, k, at));
        } else {
            let j = choose|j: int| #[trigger] stands_at(before, k, j);
            assert(stands_at(before, k, j));
            if j < at {
                assert(stands_at(after, k, j));
            } else {
                assert(after[j + 1] == before[j]);
                assert(stands_at(after, k, j + 1));
            }
        }
    };
    lemma_same_map(after, m);
}

proof fn lemma_take(before: Seq<(String, String)>, after: Seq<(String, String)>, at: int, name: Seq<char>)
    requires
        ascending(before),
        stands_at(before, name, at),
        after == before.remove(at),
    ensures
        ascending(after),
        map_of(after) == map_of(before).remove(name),
{
    assert forall|j: int| 0 <= j < at implies #[trigger] after[j] == before[j] by {};
    assert forall|j: int| at <= j < after.len() implies #[trigger] after[j] == before[j + 1] by {};
    assert forall|j: int, k: int| 0 <= j < k < after.len() implies precedes((#[trigger] after[j]).0@, (#[trigger] after[k]).0@) by {
        let jj = if j < at { j } else { j + 1 };
        let kk = if k < at { k } else { k + 1 };
        assert(precedes(before[jj].0@, before[kk].0@));
    };
    let m = map_of(before).remove(name);
    assert forall|j: int| 0 <= j < after.len() implies m.contains_key((#[trigger] after[j]).0@) && m[after[j].0@] == after[j].1@ by {
        let jj = if j < at { j } else { j + 1 };
        lemma_value_at(before, jj);
        precedes_irreflexive(name);
        if jj < at {
            assert(precedes(before[jj].0@, before[at].0@));
        } else {
            assert(precedes(before[at].0@, before[jj].0@));
        }
    };
    assert forall|k: Seq<char>| #[trigger] m.contains_key(k) implies exists|j: int| #[trigger] stands_at(after, k, j) by {
        let j = choose|j: int| #[trigger] stands_at(before, k, j);
        assert(stands_at(before, k, j));
        if j < at {
            assert(stands_at(after, k, j));
        } else {
            assert(after[j - 1] == before[j]);
            assert(stands_at(after, k, j - 1));
        }
    };
    lemma_same_map(after, m);
}

} // verus!
