//! A small map from names to values, kept as a list in which no name occurs
//! twice.

use crate::text::same_text;
use vstd::prelude::*;

verus! {

/// The map that a list of named values stands for. Where a name occurs more
/// than once, the last occurrence counts.
pub open spec fn map_of<T>(entries: Seq<(String, T)>) -> Map<Seq<char>, T>
    decreases entries.len(),
{
    if entries.len() == 0 {
        Map::empty()
    } else {
        map_of(entries.drop_last()).insert(entries.last().0@, entries.last().1)
    }
}

/// No name occurs twice in the list.
pub open spec fn distinct_names<T>(entries: Seq<(String, T)>) -> bool {
    forall|i: int, j: int|
        0 <= i < j < entries.len() ==> (#[trigger] entries[i]).0@ != (#[trigger] entries[j]).0@
}

/// Position of the first entry with the given name, looking from `from` on.
pub open spec fn first_named<T>(entries: Seq<(String, T)>, name: Seq<char>, from: int) -> Option<
    int,
>
    decreases entries.len() - from,
{
    if from < 0 || from >= entries.len() {
        None
    } else if entries[from].0@ == name {
        Some(from)
    } else {
        first_named(entries, name, from + 1)
    }
}

/// The list after a named value has been put in: in the place of the entry
/// that had the name, or at the end where none had it.
pub open spec fn with_entry<T>(entries: Seq<(String, T)>, name: String, value: T) -> Seq<
    (String, T),
> {
    match first_named(entries, name@, 0) {
        Some(i) => entries.update(i, (name, value)),
        None => entries.push((name, value)),
    }
}

/// The list that putting in named values one after the other gives.
pub open spec fn collected<T>(entries: Seq<(String, T)>) -> Seq<(String, T)>
    decreases entries.len(),
{
    if entries.len() == 0 {
        Seq::empty()
    } else {
        with_entry(collected(entries.drop_last()), entries.last().0, entries.last().1)
    }
}

/// What the first position of a name is: a position that holds the name,
/// with none before it that does; or none where no entry holds the name.
pub proof fn lemma_first_named<T>(entries: Seq<(String, T)>, name: Seq<char>, from: int)
    requires
        0 <= from,
    ensures
        match first_named(entries, name, from) {
            Some(i) => from <= i < entries.len() && entries[i].0@ == name && forall|k: int|
                from <= k < i ==> (#[trigger] entries[k]).0@ != name,
            None => forall|k: int| from <= k < entries.len() ==> (#[trigger] entries[k]).0@ != name,
        },
    decreases entries.len() - from,
{
    if from < entries.len() && entries[from].0@ != name {
        lemma_first_named(entries, name, from + 1);
    }
}

/// A name that the list does not hold is no key of its map.
pub proof fn lemma_absent_name<T>(entries: Seq<(String, T)>, name: Seq<char>)
    requires
        forall|i: int| 0 <= i < entries.len() ==> (#[trigger] entries[i]).0@ != name,
    ensures
        !map_of(entries).contains_key(name),
    decreases entries.len(),
{
    if entries.len() > 0 {
        let rest = entries.drop_last();
        assert forall|i: int| 0 <= i < rest.len() implies (#[trigger] rest[i]).0@ != name by {
            assert(rest[i] == entries[i]);
        }
        lemma_absent_name(rest, name);
        assert(entries.last() == entries[entries.len() - 1]);
    }
}

/// In a list without repeated names, every entry is what its name maps to.
pub proof fn lemma_entry_is_mapped<T>(entries: Seq<(String, T)>, i: int)
    requires
        distinct_names(entries),
        0 <= i < entries.len(),
    ensures
        map_of(entries).contains_key(entries[i].0@),
        map_of(entries)[entries[i].0@] == entries[i].1,
    decreases entries.len(),
{
    let rest = entries.drop_last();
    let last = entries.len() - 1;
    assert(entries.last() == entries[last]);
    if i < last {
        assert forall|a: int, b: int| 0 <= a < b < rest.len() implies (#[trigger] rest[a]).0@ != (
        #[trigger] rest[b]).0@ by {
            assert(rest[a] == entries[a]);
            assert(rest[b] == entries[b]);
        }
        assert(rest[i] == entries[i]);
        lemma_entry_is_mapped(rest, i);
        assert(entries[i].0@ != entries[last].0@);
    }
}

/// Replacing the value of the one entry that holds a name is inserting into
/// the map.
pub proof fn lemma_replace_is_insert<T>(entries: Seq<(String, T)>, i: int, name: String, value: T)
    requires
        distinct_names(entries),
        0 <= i < entries.len(),
        entries[i].0@ == name@,
    ensures
        distinct_names(entries.update(i, (name, value))),
        map_of(entries.update(i, (name, value))) == map_of(entries).insert(name@, value),
    decreases entries.len(),
{
    let updated = entries.update(i, (name, value));
    let last = entries.len() - 1;
    let rest = entries.drop_last();
    assert(entries.last() == entries[last]);
    assert(updated.last() == updated[last]);
    assert forall|a: int, b: int| 0 <= a < b < updated.len() implies (#[trigger] updated[a]).0@ != (
    #[trigger] updated[b]).0@ by {
        assert(updated[a].0@ == entries[a].0@);
        assert(updated[b].0@ == entries[b].0@);
    }
    if i == last {
        assert(updated.drop_last() =~= rest);
        assert(map_of(updated) =~= map_of(entries).insert(name@, value));
    } else {
        assert forall|a: int, b: int| 0 <= a < b < rest.len() implies (#[trigger] rest[a]).0@ != (
        #[trigger] rest[b]).0@ by {
            assert(rest[a] == entries[a]);
            assert(rest[b] == entries[b]);
        }
        assert(rest[i] == entries[i]);
        lemma_replace_is_insert(rest, i, name, value);
        assert(updated.drop_last() =~= rest.update(i, (name, value)));
        assert(entries[i].0@ != entries[last].0@);
        assert(map_of(updated) =~= map_of(entries).insert(name@, value));
    }
}

/// A map from names to values.
#[derive(Debug)]
pub struct NameMap<T> {
    /// The named values, no name twice.
    pub entries: Vec<(String, T)>,
}

impl<T> View for NameMap<T> {
    type V = Map<Seq<char>, T>;

    open spec fn view(&self) -> Map<Seq<char>, T> {
        map_of(self.entries@)
    }
}

impl<T> NameMap<T> {
    /// No name occurs twice.
    pub open spec fn well_formed(&self) -> bool {
        distinct_names(self.entries@)
    }

    /// The empty map.
    pub fn new() -> (out: Self)
        ensures
            out.well_formed(),
            out@ == Map::<Seq<char>, T>::empty(),
            out.entries@ == Seq::<(String, T)>::empty(),
    {
        NameMap { entries: Vec::new() }
    }

    /// Collects named values into a map. Where a name occurs more than once,
    /// the last value counts.
    pub fn from_entries(entries: Vec<(String, T)>) -> (out: Self)
        ensures
            out.well_formed(),
            out@ == map_of(entries@),
            out.entries@ == collected(entries@),
    {
        let mut out = Self::new();
        let ghost all = entries@;
        for entry in it: entries
            invariant
                it.seq() == all,
                out.well_formed(),
                out@ == map_of(all.take(it.index() as int)),
                out.entries@ == collected(all.take(it.index() as int)),
        {
            let (name, value) = entry;
            proof {
                let taken = all.take(it.index() + 1);
                assert(taken.drop_last() =~= all.take(it.index() as int));
                assert(taken.last() == all[it.index() as int]);
            }
            out.insert(name, value);
        }
        proof {
            assert(all.take(all.len() as int) =~= all);
        }
        out
    }

    /// Position of the first entry with the given name.
    fn position(&self, name: &str) -> (out: Option<usize>)
        ensures
            match out {
                Some(i) => first_named(self.entries@, name@, 0) == Some(i as int),
                None => first_named(self.entries@, name@, 0) is None,
            },
    {
        let mut i: usize = 0;
        while i < self.entries.len()
            invariant
                i <= self.entries@.len(),
                first_named(self.entries@, name@, 0) == first_named(self.entries@, name@, i as int),
            decreases self.entries@.len() - i,
        {
            if same_text(self.entries[i].0.as_str(), name) {
                return Some(i);
            }
            i = i + 1;
        }
        None
    }

    /// Maps `name` to `value`, in place of what it was mapped to before.
    pub fn insert(&mut self, name: String, value: T)
        requires
            old(self).well_formed(),
        ensures
            final(self).well_formed(),
            final(self)@ == old(self)@.insert(name@, value),
            final(self).entries@ == with_entry(old(self).entries@, name, value),
    {
        proof {
            lemma_first_named(self.entries@, name@, 0);
        }
        match self.position(name.as_str()) {
            Some(i) => {
                proof {
                    lemma_replace_is_insert(self.entries@, i as int, name, value);
                }
                self.entries.set(i, (name, value));
            },
            None => {
                let ghost before = self.entries@;
                self.entries.push((name, value));
                proof {
                    assert(self.entries@.drop_last() =~= before);
                    assert(self.entries@.last() == (name, value));
                }
            },
        }
    }

    /// The value that `name` is mapped to, if any.
    pub fn get(&self, name: &str) -> (out: Option<&T>)
        requires
            self.well_formed(),
        ensures
            match out {
                Some(value) => self@.contains_key(name@) && self@[name@] == *value,
                None => !self@.contains_key(name@),
            },
    {
        proof {
            lemma_first_named(self.entries@, name@, 0);
        }
        match self.position(name) {
            Some(i) => {
                proof {
                    lemma_entry_is_mapped(self.entries@, i as int);
                }
                Some(&self.entries[i].1)
            },
            None => {
                proof {
                    lemma_absent_name(self.entries@, name@);
                }
                None
            },
        }
    }
}

} // verus!
