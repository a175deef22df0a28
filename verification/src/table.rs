//! A small map from names to values that keeps the order of insertion.
//!
//! The sampler's registry of observables and the streams of observations
//! handed to the optimizers are tables. No name occurs twice in a table.
use vstd::prelude::*;

verus! {

/// One named value.
pub struct Entry<V> {
    pub name: String,
    pub value: V,
}

/// Named values in the order in which their names were first inserted.
pub struct Table<V> {
    entries: Vec<Entry<V>>,
}

impl<V> Table<V> {
    /// The names of `entries`, in order.
    pub open spec fn names_in(entries: Seq<Entry<V>>) -> Seq<Seq<char>> {
        Seq::new(entries.len(), |i: int| entries[i].name@)
    }

    /// The values of `entries`, in order.
    pub open spec fn values_in(entries: Seq<Entry<V>>) -> Seq<V> {
        Seq::new(entries.len(), |i: int| entries[i].value)
    }

    /// The names, in order.
    pub closed spec fn labels(&self) -> Seq<Seq<char>> {
        Self::names_in(self.entries@)
    }

    /// The values, in the order of their names.
    pub closed spec fn items(&self) -> Seq<V> {
        Self::values_in(self.entries@)
    }

    /// No name occurs twice.
    pub open spec fn distinct(labels: Seq<Seq<char>>) -> bool {
        forall|i: int, j: int| 0 <= i < j < labels.len() ==> labels[i] != labels[j]
    }

    #[verifier::type_invariant]
    spec fn well_formed(&self) -> bool {
        Self::distinct(self.labels())
    }

    /// The value under `name`, if the table has that name.
    pub open spec fn lookup(&self, name: Seq<char>) -> Option<V> {
        if self.labels().contains(name) {
            Some(self.items()[self.labels().index_of(name)])
        } else {
            None
        }
    }

    /// The empty table.
    pub fn new() -> (out: Self)
        ensures
            out.labels() == Seq::<Seq<char>>::empty(),
            out.items() == Seq::<V>::empty(),
    {
        let out = Table { entries: Vec::new() };
        proof {
            assert(out.labels() =~= Seq::<Seq<char>>::empty());
            assert(out.items() =~= Seq::<V>::empty());
        }
        out
    }

    /// The number of names, none of which occurs twice.
    pub fn len(&self) -> (out: usize)
        ensures
            out == self.labels().len(),
            out == self.items().len(),
            Self::distinct(self.labels()),
    {
        proof {
            use_type_invariant(self);
        }
        self.entries.len()
    }

    /// Where `name` stands, if the table has it.
    pub fn position(&self, name: &String) -> (out: Option<usize>)
        ensures
            match out {
                Some(i) => i < self.labels().len() && self.labels()[i as int] == name@,
                None => !self.labels().contains(name@),
            },
    {
        let mut i: usize = 0;
        while i < self.entries.len()
            invariant
                i <= self.entries.len(),
                forall|j: int| 0 <= j < i ==> self.labels()[j] != name@,
            decreases self.entries.len() - i,
        {
            if self.entries[i].name == *name {
                return Some(i);
            }
            i += 1;
        }
        None
    }

    /// The name at position `i`.
    pub fn name_at(&self, i: usize) -> (out: &String)
        requires
            i < self.labels().len(),
        ensures
            out@ == self.labels()[i as int],
    {
        &self.entries[i].name
    }

    /// The value at position `i`.
    pub fn value_at(&self, i: usize) -> (out: &V)
        requires
            i < self.items().len(),
        ensures
            *out == self.items()[i as int],
    {
        &self.entries[i].value
    }

    /// The value under `name`, if the table has that name.
    pub fn get(&self, name: &String) -> (out: Option<&V>)
        ensures
            match out {
                Some(value) => self.lookup(name@) == Some(*value),
                None => self.lookup(name@) is None,
            },
    {
        match self.position(name) {
            Some(i) => {
                proof {
                    use_type_invariant(self);
                    let k = self.labels().index_of(name@);
                    assert(self.labels()[i as int] == name@);
                    assert(self.labels().contains(name@));
                    assert(self.labels()[k] == name@);
                    assert(k == i);
                }
                Some(&self.entries[i].value)
            },
            None => None,
        }
    }

    /// Exchanges the value at position `i` with `value`.
    pub fn exchange(&mut self, i: usize, value: &mut V)
        requires
            i < old(self).items().len(),
        ensures
            final(self).labels() == old(self).labels(),
            final(self).items() == old(self).items().update(i as int, *old(value)),
            *final(value) == old(self).items()[i as int],
    {
        proof {
            use_type_invariant(&*self);
        }
        let mut entries: Vec<Entry<V>> = Vec::new();
        core::mem::swap(&mut self.entries, &mut entries);
        core::mem::swap(&mut entries[i].value, value);
        proof {
            assert(Self::names_in(entries@) =~= old(self).labels());
            assert(Self::values_in(entries@) =~= old(self).items().update(i as int, *old(value)));
        }
        core::mem::swap(&mut self.entries, &mut entries);
    }

    /// Puts `value` under `name`: in place of the value that stood under that
    /// name, or else at the end.
    pub fn insert(&mut self, name: String, value: V)
        ensures
            old(self).labels().contains(name@) ==> final(self).labels() == old(self).labels()
                && final(self).items() == old(self).items().update(
                old(self).labels().index_of(name@),
                value,
            ),
            !old(self).labels().contains(name@) ==> final(self).labels() == old(
                self,
            ).labels().push(name@) && final(self).items() == old(self).items().push(value),
            final(self).lookup(name@) == Some(value),
            forall|other: Seq<char>|
                other != name@ ==> #[trigger] final(self).lookup(other) == old(self).lookup(other),
    {
        proof {
            use_type_invariant(&*self);
        }
        let found = self.position(&name);
        let mut entries: Vec<Entry<V>> = Vec::new();
        core::mem::swap(&mut self.entries, &mut entries);
        match found {
            Some(i) => {
                proof {
                    let k = old(self).labels().index_of(name@);
                    assert(old(self).labels()[i as int] == name@);
                    assert(old(self).labels()[k] == name@);
                    assert(k == i);
                }
                entries[i] = Entry { name, value };
                proof {
                    assert(Self::names_in(entries@) =~= old(self).labels());
                    assert(Self::values_in(entries@) =~= old(self).items().update(
                        i as int,
                        value,
                    ));
                }
            },
            None => {
                entries.push(Entry { name, value });
                proof {
                    assert(Self::names_in(entries@) =~= old(self).labels().push(name@));
                    assert(Self::values_in(entries@) =~= old(self).items().push(value));
                }
            },
        }
        proof {
            assert(Self::distinct(Self::names_in(entries@)));
        }
        core::mem::swap(&mut self.entries, &mut entries);
        proof {
            let before = old(self).labels();
            let after = self.labels();
            let at = match found {
                Some(i) => i as int,
                None => before.len() as int,
            };
            assert(after[at] == name@);
            assert(after.contains(name@));
            assert(after.index_of(name@) == at) by {
                let k = after.index_of(name@);
                if k != at {
                    assert(after[k] == after[at]);
                }
            }
            assert forall|other: Seq<char>| other != name@ implies #[trigger] self.lookup(other)
                == old(self).lookup(other) by {
                if before.contains(other) {
                    let k = before.index_of(other);
                    assert(after[k] == other);
                    assert(after.contains(other));
                    let j = after.index_of(other);
                    if j != k {
                        assert(after[j] == after[k]);
                    }
                } else {
                    if after.contains(other) {
                        let j = after.index_of(other);
                        assert(after[j] == other);
                        assert(j < before.len());
                        assert(before[j] == other);
                    }
                }
            }
        }
    }
}

} // verus!
