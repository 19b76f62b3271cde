//! An ordered table from names to names: each name once, the entries kept in
//! the order of their names.

use crate::order::{
    compare, lemma_text_less_irreflexive, lemma_text_less_transitive, text_less, Rank,
};
use vstd::prelude::*;
use vstd::seq_lib::seq_to_set_is_finite;
use vstd::set_lib::lemma_len_subset;

verus! {

/// One entry of a [`NameTable`].
#[derive(Debug, PartialEq, Eq)]
pub struct Entry {
    pub key: String,
    pub value: String,
}

/// A table from names to names, ordered by name.
#[derive(Debug, PartialEq, Eq)]
pub struct NameTable {
    entries: Vec<Entry>,
}

/// Whether the names of `entries` rise strictly from each entry to every later one.
pub open spec fn strictly_sorted(entries: Seq<(Seq<char>, Seq<char>)>) -> bool {
    forall|i: int, j: int|
        0 <= i < j < entries.len() ==> text_less(#[trigger] entries[i].0, #[trigger] entries[j].0)
}

/// Whether some entry of `entries` has the name `key`.
pub open spec fn has_key(entries: Seq<(Seq<char>, Seq<char>)>, key: Seq<char>) -> bool {
    exists|i: int| 0 <= i < entries.len() && #[trigger] entries[i].0 == key
}

/// The place of an entry of `entries` with the name `key`.
pub open spec fn index_of(entries: Seq<(Seq<char>, Seq<char>)>, key: Seq<char>) -> int {
    choose|i: int| 0 <= i < entries.len() && #[trigger] entries[i].0 == key
}

/// The map that `entries` stand for.
pub open spec fn map_of(entries: Seq<(Seq<char>, Seq<char>)>) -> Map<Seq<char>, Seq<char>> {
    Map::new(
        |key: Seq<char>| has_key(entries, key),
        |key: Seq<char>| entries[index_of(entries, key)].1,
    )
}

/// In a sorted sequence an entry is found by its name alone.
pub proof fn lemma_index_of(entries: Seq<(Seq<char>, Seq<char>)>, i: int)
    requires
        strictly_sorted(entries),
        0 <= i < entries.len(),
    ensures
        has_key(entries, entries[i].0),
        index_of(entries, entries[i].0) == i,
        map_of(entries).contains_key(entries[i].0),
        map_of(entries)[entries[i].0] == entries[i].1,
{
    let j = index_of(entries, entries[i].0);
    lemma_text_less_irreflexive(entries[i].0);
    if j < i {
        assert(text_less(entries[j].0, entries[i].0));
    } else if i < j {
        assert(text_less(entries[i].0, entries[j].0));
    }
}

/// The names of a sorted sequence without its last entry are its names
/// without the last.
proof fn lemma_map_of_drop_last(entries: Seq<(Seq<char>, Seq<char>)>)
    requires
        strictly_sorted(entries),
        entries.len() > 0,
    ensures
        strictly_sorted(entries.drop_last()),
        map_of(entries.drop_last()) == map_of(entries).remove(entries.last().0),
{
    let shorter = entries.drop_last();
    let last = entries.len() - 1;
    assert forall|key: Seq<char>| has_key(shorter, key) == (key != entries.last().0 && has_key(
        entries,
        key,
    )) by {
        if has_key(shorter, key) {
            let i = index_of(shorter, key);
            assert(entries[i].0 == key);
            assert(text_less(entries[i].0, entries[last].0));
            lemma_text_less_irreflexive(key);
        }
        if key != entries.last().0 && has_key(entries, key) {
            let i = index_of(entries, key);
            assert(shorter[i].0 == key);
        }
    }
    assert forall|key: Seq<char>| has_key(shorter, key) implies shorter[index_of(shorter, key)].1
        == entries[index_of(entries, key)].1 by {
        let i = index_of(shorter, key);
        lemma_index_of(shorter, i);
        assert(entries[i].0 == key);
        lemma_index_of(entries, i);
    }
    assert(map_of(shorter) =~= map_of(entries).remove(entries.last().0));
}

/// A map has one sorted sequence of entries: two sorted sequences that stand
/// for one map are one sequence.
pub proof fn lemma_sorted_entries_unique(
    a: Seq<(Seq<char>, Seq<char>)>,
    b: Seq<(Seq<char>, Seq<char>)>,
)
    requires
        strictly_sorted(a),
        strictly_sorted(b),
        map_of(a) == map_of(b),
    ensures
        a == b,
    decreases a.len(),
{
    if a.len() == 0 {
        if b.len() > 0 {
            lemma_index_of(b, 0);
            assert(map_of(a).contains_key(b[0].0));
            let i = index_of(a, b[0].0);
        }
        assert(a =~= b);
    } else {
        let last = a.len() - 1;
        lemma_index_of(a, last);
        assert(map_of(b).contains_key(a[last].0));
        let j = index_of(b, a[last].0);
        assert(b[j].0 == a[last].0);
        let top = b.len() - 1;
        lemma_index_of(b, top);
        assert(map_of(a).contains_key(b[top].0));
        let i = index_of(a, b[top].0);
        assert(a[i].0 == b[top].0);
        if j < top {
            assert(text_less(b[j].0, b[top].0));
            if i < last {
                assert(text_less(a[i].0, a[last].0));
                lemma_text_less_transitive(a[last].0, b[top].0, a[last].0);
            }
            lemma_text_less_irreflexive(a[last].0);
        }
        assert(a[last].0 == b[top].0);
        assert(a[last].1 == b[top].1);
        lemma_map_of_drop_last(a);
        lemma_map_of_drop_last(b);
        lemma_sorted_entries_unique(a.drop_last(), b.drop_last());
        assert(a =~= a.drop_last().push(a[last]));
        assert(b =~= b.drop_last().push(b[top]));
    }
}

impl View for NameTable {
    type V = Map<Seq<char>, Seq<char>>;

    /// The table as a map.
    closed spec fn view(&self) -> Map<Seq<char>, Seq<char>> {
        map_of(self.entries())
    }
}

impl NameTable {
    /// The entries in the order in which the table holds them.
    pub closed spec fn entries(&self) -> Seq<(Seq<char>, Seq<char>)> {
        self.entries@.map_values(|e: Entry| (e.key@, e.value@))
    }

    /// The invariant of the table: its names rise strictly.
    pub closed spec fn wf(&self) -> bool {
        strictly_sorted(self.entries())
    }

    /// What the invariant means for the entries, and how the map goes with them.
    pub proof fn lemma_entries(&self)
        requires
            self.wf(),
        ensures
            strictly_sorted(self.entries()),
            self@ == map_of(self.entries()),
            forall|i: int|
                0 <= i < self.entries().len() ==> self@.contains_key(
                    #[trigger] self.entries()[i].0,
                ) && self@[self.entries()[i].0] == self.entries()[i].1,
            forall|key: Seq<char>| #[trigger]
                self@.contains_key(key) ==> exists|i: int|
                    0 <= i < self.entries().len() && #[trigger] self.entries()[i].0 == key,
    {
        assert forall|i: int| 0 <= i < self.entries().len() implies self@.contains_key(
            #[trigger] self.entries()[i].0,
        ) && self@[self.entries()[i].0] == self.entries()[i].1 by {
            lemma_index_of(self.entries(), i);
        }
    }

    /// Names that the table holds, each written once, are no more than its entries.
    pub proof fn lemma_bound(&self, names: Seq<Seq<char>>)
        requires
            self.wf(),
            names.no_duplicates(),
            forall|i: int| 0 <= i < names.len() ==> self@.contains_key(#[trigger] names[i]),
        ensures
            names.len() <= self.entries().len(),
    {
        let keys = self.entries().map_values(|e: (Seq<char>, Seq<char>)| e.0);
        names.unique_seq_to_set();
        keys.lemma_cardinality_of_set();
        seq_to_set_is_finite(keys);
        assert(names.to_set().subset_of(keys.to_set())) by {
            assert forall|name: Seq<char>| names.to_set().contains(name) implies keys.to_set()
                .contains(name) by {
                let i = choose|i: int| 0 <= i < names.len() && names[i] == name;
                assert(self@.contains_key(names[i]));
                let j = index_of(self.entries(), name);
                assert(keys[j] == name);
            }
        }
        lemma_len_subset(names.to_set(), keys.to_set());
    }

    /// An empty table.
    pub fn new() -> (r: NameTable)
        ensures
            r.wf(),
            r@ == Map::<Seq<char>, Seq<char>>::empty(),
            r.entries() == Seq::<(Seq<char>, Seq<char>)>::empty(),
    {
        let r = NameTable { entries: Vec::new() };
        assert(r@ =~= Map::<Seq<char>, Seq<char>>::empty());
        assert(r.entries() =~= Seq::<(Seq<char>, Seq<char>)>::empty());
        r
    }

    /// The number of entries.
    pub fn len(&self) -> (r: usize)
        ensures
            r == self.entries().len(),
    {
        self.entries.len()
    }

    /// The entry at place `i`, counted in the order of the names.
    pub fn entry(&self, i: usize) -> (r: &Entry)
        requires
            i < self.entries().len(),
        ensures
            (r.key@, r.value@) == self.entries()[i as int],
    {
        &self.entries[i]
    }

    /// The value under `key`, where the table has one.
    pub fn get(&self, key: &str) -> (r: Option<&String>)
        requires
            self.wf(),
        ensures
            match r {
                Some(value) => self@.contains_key(key@) && self@[key@] == value@,
                None => !self@.contains_key(key@),
            },
    {
        let mut i: usize = 0;
        while i < self.entries.len()
            invariant
                i <= self.entries.len(),
                self.wf(),
                forall|j: int| 0 <= j < i ==> (#[trigger] self.entries()[j]).0 != key@,
            decreases self.entries.len() - i,
        {
            if compare(self.entries[i].key.as_str(), key) == Rank::Same {
                proof {
                    lemma_index_of(self.entries(), i as int);
                }
                return Some(&self.entries[i].value);
            }
            i += 1;
        }
        None
    }

    /// Puts `value` under `key`, in place of what the table held there.
    pub fn insert(&mut self, key: String, value: String)
        requires
            old(self).wf(),
        ensures
            final(self).wf(),
            final(self)@ == old(self)@.insert(key@, value@),
    {
        let mut at: usize = 0;
        let mut found = false;
        while at < self.entries.len()
            invariant_except_break
                !found,
            invariant
                at <= self.entries.len(),
                self == old(self),
                self.wf(),
                forall|j: int| 0 <= j < at ==> text_less((#[trigger] self.entries()[j]).0, key@),
            ensures
                at <= self.entries.len(),
                self == old(self),
                forall|j: int| 0 <= j < at ==> text_less((#[trigger] self.entries()[j]).0, key@),
                found ==> at < self.entries.len() && self.entries()[at as int].0 == key@,
                !found && at < self.entries.len() ==> text_less(key@, self.entries()[at as int].0),
            decreases self.entries.len() - at,
        {
            match compare(self.entries[at].key.as_str(), key.as_str()) {
                Rank::Before => {
                    at += 1;
                },
                Rank::Same => {
                    found = true;
                    break ;
                },
                Rank::After => {
                    break ;
                },
            }
        }
        let ghost before = self.entries();
        let ghost item = (key@, value@);
        if found {
            self.entries.set(at, Entry { key, value });
            proof {
                assert(self.entries() =~= before.update(at as int, item));
                lemma_updated(before, at as int, item);
            }
        } else {
            self.entries.insert(at, Entry { key, value });
            proof {
                assert(self.entries() =~= before.insert(at as int, item));
                lemma_inserted(before, at as int, item);
            }
        }
    }
}

/// Replacing the value of the entry at `at` keeps the order and sets that name.
proof fn lemma_updated(before: Seq<(Seq<char>, Seq<char>)>, at: int, item: (Seq<char>, Seq<char>))
    requires
        strictly_sorted(before),
        0 <= at < before.len(),
        before[at].0 == item.0,
    ensures
        strictly_sorted(before.update(at, item)),
        map_of(before.update(at, item)) == map_of(before).insert(item.0, item.1),
{
    let after = before.update(at, item);
    assert(strictly_sorted(after)) by {
        assert forall|i: int, j: int| 0 <= i < j < after.len() implies text_less(
            #[trigger] after[i].0,
            #[trigger] after[j].0,
        ) by {
            assert(text_less(before[i].0, before[j].0));
        }
    }
    assert forall|key: Seq<char>|
        has_key(after, key) == (key == item.0 || has_key(before, key)) by {
        if has_key(after, key) {
            let i = index_of(after, key);
            assert(before[i].0 == key);
        }
        if has_key(before, key) {
            let i = index_of(before, key);
            assert(after[i].0 == key);
        }
        if key == item.0 {
            assert(after[at].0 == key);
        }
    }
    assert forall|key: Seq<char>| has_key(after, key) implies after[index_of(after, key)].1 == (
    if key == item.0 {
        item.1
    } else {
        before[index_of(before, key)].1
    }) by {
        let i = index_of(after, key);
        lemma_index_of(after, i);
        if key != item.0 {
            assert(before[i].0 == key);
            lemma_index_of(before, i);
        } else {
            lemma_index_of(after, at);
        }
    }
    assert(map_of(after) =~= map_of(before).insert(item.0, item.1));
}

/// Putting a new name at its place keeps the order and adds that name.
proof fn lemma_inserted(before: Seq<(Seq<char>, Seq<char>)>, at: int, item: (Seq<char>, Seq<char>))
    requires
        strictly_sorted(before),
        0 <= at <= before.len(),
        forall|j: int| 0 <= j < at ==> text_less((#[trigger] before[j]).0, item.0),
        at < before.len() ==> text_less(item.0, before[at].0),
    ensures
        strictly_sorted(before.insert(at, item)),
        map_of(before.insert(at, item)) == map_of(before).insert(item.0, item.1),
{
    let after = before.insert(at, item);
    assert forall|j: int| at <= j < before.len() implies text_less(
        item.0,
        #[trigger] before[j].0,
    ) by {
        if at < j {
            assert(text_less(before[at].0, before[j].0));
            lemma_text_less_transitive(item.0, before[at].0, before[j].0);
        }
    }
    assert(strictly_sorted(after)) by {
        assert forall|i: int, j: int| 0 <= i < j < after.len() implies text_less(
            #[trigger] after[i].0,
            #[trigger] after[j].0,
        ) by {
            if j < at {
                assert(text_less(before[i].0, before[j].0));
            } else if j == at {
                assert(text_less(before[i].0, item.0));
            } else if i < at {
                assert(text_less(before[i].0, before[j - 1].0));
            } else if i == at {
                assert(text_less(item.0, before[j - 1].0));
            } else {
                assert(text_less(before[i - 1].0, before[j - 1].0));
            }
        }
    }
    assert forall|key: Seq<char>|
        has_key(after, key) == (key == item.0 || has_key(before, key)) by {
        if has_key(after, key) {
            let i = index_of(after, key);
            if i < at {
                assert(before[i].0 == key);
            } else if i > at {
                assert(before[i - 1].0 == key);
            }
        }
        if has_key(before, key) {
            let i = index_of(before, key);
            if i < at {
                assert(after[i].0 == key);
            } else {
                assert(after[i + 1].0 == key);
            }
        }
        if key == item.0 {
            assert(after[at].0 == key);
        }
    }
    assert forall|key: Seq<char>| has_key(after, key) implies after[index_of(after, key)].1 == (
    if key == item.0 {
        item.1
    } else {
        before[index_of(before, key)].1
    }) by {
        let i = index_of(after, key);
        lemma_index_of(after, i);
        if key != item.0 {
            if i < at {
                assert(before[i].0 == key);
                lemma_index_of(before, i);
            } else {
                assert(before[i - 1].0 == key);
                lemma_index_of(before, i - 1);
            }
        } else {
            lemma_index_of(after, at);
        }
    }
    assert(map_of(after) =~= map_of(before).insert(item.0, item.1));
}

} // verus!
