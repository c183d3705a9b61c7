//! A table from names to values that keeps its entries in the order in which
//! their names were first entered.

use vstd::prelude::*;
use vstd::string::StringExecFns;

verus! {

/// The place of the first entry under `name`, if there is one.
pub open spec fn index_of<X>(entries: Seq<(Seq<char>, X)>, name: Seq<char>) -> Option<int>
    decreases entries.len(),
{
    if entries.len() == 0 {
        None
    } else {
        match index_of(entries.drop_last(), name) {
            Some(place) => Some(place),
            None => if entries.last().0 == name {
                Some(entries.len() - 1)
            } else {
                None
            },
        }
    }
}

/// The value under `name`, if there is one.
pub open spec fn lookup<X>(entries: Seq<(Seq<char>, X)>, name: Seq<char>) -> Option<X> {
    match index_of(entries, name) {
        Some(place) => Some(entries[place].1),
        None => None,
    }
}

/// The entries after `value` was put under `name`: it takes the place of the
/// value that was there, or it is entered behind all others.
pub open spec fn put<X>(entries: Seq<(Seq<char>, X)>, name: Seq<char>, value: X) -> Seq<
    (Seq<char>, X),
> {
    match index_of(entries, name) {
        Some(place) => entries.update(place, (name, value)),
        None => entries.push((name, value)),
    }
}

/// A place that `index_of` gives holds an entry of that name, and no entry
/// before it has the name; where it gives none, no entry has the name.
pub proof fn lemma_index_of<X>(entries: Seq<(Seq<char>, X)>, name: Seq<char>)
    ensures
        index_of(entries, name) matches Some(place) ==> 0 <= place < entries.len()
            && entries[place].0 == name && forall|i: int| 0 <= i < place ==> entries[i].0 != name,
        index_of(entries, name) is None ==> forall|i: int|
            0 <= i < entries.len() ==> entries[i].0 != name,
    decreases entries.len(),
{
    if entries.len() > 0 {
        lemma_index_of(entries.drop_last(), name);
        assert(forall|i: int| 0 <= i < entries.len() - 1 ==> entries.drop_last()[i] == entries[i]);
    }
}

/// What was put under a name is found under it, and what is under any other
/// name stays.
pub proof fn lemma_put<X>(entries: Seq<(Seq<char>, X)>, name: Seq<char>, value: X, other: Seq<char>)
    ensures
        lookup(put(entries, name, value), name) == Some(value),
        other != name ==> lookup(put(entries, name, value), other) == lookup(entries, other),
{
    let after = put(entries, name, value);
    lemma_index_of(entries, name);
    lemma_index_of(entries, other);
    lemma_index_of(after, name);
    lemma_index_of(after, other);
    match index_of(entries, name) {
        Some(place) => {
            assert(after[place].0 == name);
            assert(forall|i: int| 0 <= i < entries.len() ==> after[i].0 == entries[i].0);
            if other != name {
                match index_of(entries, other) {
                    Some(at) => {
                        assert(after[at].0 == other);
                        assert(after[at] == entries[at]);
                    },
                    None => {},
                }
            }
        },
        None => {
            assert(after[entries.len() as int].0 == name);
            assert(forall|i: int| 0 <= i < entries.len() ==> after[i] == entries[i]);
            if other != name {
                match index_of(entries, other) {
                    Some(at) => {
                        assert(after[at].0 == other);
                    },
                    None => {},
                }
            }
        },
    }
}

/// A table from names to values.
pub struct Registry<V> {
    entries: Vec<(String, V)>,
}

impl<V: View> View for Registry<V> {
    type V = Seq<(Seq<char>, V::V)>;

    closed spec fn view(&self) -> Seq<(Seq<char>, V::V)> {
        Seq::new(self.entries@.len(), |i: int| (self.entries@[i].0@, self.entries@[i].1@))
    }
}

impl<V: View> Registry<V> {
    /// An empty table.
    pub fn new() -> (registry: Registry<V>)
        ensures
            registry@ == Seq::<(Seq<char>, V::V)>::empty(),
    {
        let registry = Registry { entries: Vec::new() };
        assert(registry@ =~= Seq::empty());
        registry
    }

    /// The number of entries.
    pub fn len(&self) -> (len: usize)
        ensures
            len == self@.len(),
    {
        self.entries.len()
    }

    /// The place of the entry under `name`.
    pub fn position(&self, name: &str) -> (place: Option<usize>)
        ensures
            match place {
                Some(place) => place < self@.len() && index_of(self@, name@) == Some(place as int),
                None => index_of(self@, name@) is None,
            },
    {
        let wanted = String::from_str(name);
        let mut place: usize = 0;
        while place < self.entries.len() && !self.entries[place].0.eq(&wanted)
            invariant
                place <= self.entries.len(),
                wanted@ == name@,
                forall|i: int| 0 <= i < place ==> self@[i].0 != name@,
            decreases self.entries.len() - place,
        {
            place += 1;
        }
        proof {
            lemma_index_of(self@, name@);
        }
        if place < self.entries.len() {
            assert(self@[place as int].0 == name@);
            Some(place)
        } else {
            None
        }
    }

    /// The value under `name`.
    pub fn get(&self, name: &str) -> (value: Option<&V>)
        ensures
            match value {
                Some(value) => lookup(self@, name@) == Some(value@),
                None => lookup(self@, name@) is None,
            },
    {
        match self.position(name) {
            Some(place) => {
                assert(self@[place as int].1 == self.entries[place as int].1@);
                Some(&self.entries[place].1)
            },
            None => None,
        }
    }

    /// The name and the value of the entry at `place`.
    pub fn entry(&self, place: usize) -> (entry: (&String, &V))
        requires
            place < self@.len(),
        ensures
            (entry.0@, entry.1@) == self@[place as int],
    {
        (&self.entries[place].0, &self.entries[place].1)
    }

    /// Puts `value` in the place of the value of the entry at `place`, and
    /// gives back the value that was there.
    pub fn replace(&mut self, place: usize, value: V) -> (previous: V)
        requires
            place < old(self)@.len(),
        ensures
            previous@ == old(self)@[place as int].1,
            final(self)@ == old(self)@.update(place as int, (old(self)@[place as int].0, value@)),
    {
        let mut value = value;
        std::mem::swap(&mut self.entries[place].1, &mut value);
        assert(self@ =~= old(self)@.update(
            place as int,
            (old(self)@[place as int].0, self.entries@[place as int].1@),
        ));
        value
    }

    /// Puts `value` under `name`.
    pub fn insert(&mut self, name: String, value: V)
        ensures
            final(self)@ == put(old(self)@, name@, value@),
    {
        match self.position(name.as_str()) {
            Some(place) => {
                self.entries[place] = (name, value);
                assert(self@ =~= old(self)@.update(place as int, (name@, value@)));
            },
            None => {
                self.entries.push((name, value));
                assert(self@ =~= old(self)@.push((name@, value@)));
            },
        }
    }
}

} // verus!
