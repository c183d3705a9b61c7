//! `MatchData#named_captures`: the texts that the named groups of a pattern
//! matched, by name.

use vstd::prelude::*;
use crate::convert::Convert;
use crate::embed::Heap;
use crate::extn::matchdata::MatchData;
use crate::value::{Term, Value};

verus! {

/// Why the named captures of a value could not be given.
#[derive(Debug, Clone, Copy, Hash, PartialEq, Eq, Structural)]
pub enum Error {
    /// The value is no match, or its pattern was never compiled.
    Fatal,
    /// The pattern does not match.
    NoMatch,
}

/// The texts of the groups that share one name, in the order of the groups.
pub type Texts = Seq<Option<Seq<char>>>;

/// The text that the group with number `group` matched.
pub open spec fn capture_at(captures: Texts, group: int) -> Option<Seq<char>> {
    if 0 <= group < captures.len() {
        captures[group]
    } else {
        None
    }
}

/// The names of the groups, each once, in the order in which they first
/// occur.
pub open spec fn distinct_names(names: Seq<Option<Seq<char>>>) -> Seq<Seq<char>>
    decreases names.len(),
{
    if names.len() == 0 {
        Seq::empty()
    } else {
        let front = distinct_names(names.drop_last());
        match names.last() {
            Some(name) => if front.contains(name) {
                front
            } else {
                front.push(name)
            },
            None => front,
        }
    }
}

/// The texts of all the groups that are named `name`, in the order of the
/// groups.
pub open spec fn texts_of(names: Seq<Option<Seq<char>>>, captures: Texts, name: Seq<char>) -> Texts
    decreases names.len(),
{
    if names.len() == 0 {
        Seq::empty()
    } else {
        let front = texts_of(names.drop_last(), captures, name);
        if names.last() == Some(name) {
            front.push(capture_at(captures, names.len() - 1))
        } else {
            front
        }
    }
}

/// The named captures of a match: one entry for each distinct name, in the
/// order in which the names first occur among the groups, each with the texts
/// of all the groups of that name, in the order of the groups.
pub open spec fn grouped(names: Seq<Option<Seq<char>>>, captures: Texts) -> Seq<
    (Seq<char>, Texts),
> {
    let keys = distinct_names(names);
    Seq::new(keys.len(), |i: int| (keys[i], texts_of(names, captures, keys[i])))
}

/// What `named_captures` gives for the object that a value embeds.
pub open spec fn method_spec(data: MatchData) -> Result<Term, Error> {
    match data.capture_names {
        None => Err(Error::Fatal),
        Some(names) => match data.captures {
            None => Err(Error::NoMatch),
            Some(captures) => Ok(
                Vec::<(String, Vec<Option<String>>)>::encode(
                    grouped(names.deep_view(), captures.deep_view()),
                ),
            ),
        },
    }
}

/// A name is among the distinct names exactly when a group has it, and no
/// name is there twice.
pub proof fn lemma_distinct_names(names: Seq<Option<Seq<char>>>)
    ensures
        forall|name: Seq<char>| #[trigger]
            distinct_names(names).contains(name) <==> names.contains(Some(name)),
        distinct_names(names).no_duplicates(),
    decreases names.len(),
{
    let keys = distinct_names(names);
    if names.len() > 0 {
        let front = names.drop_last();
        let front_keys = distinct_names(front);
        lemma_distinct_names(front);
        assert(forall|i: int| 0 <= i < front.len() ==> front[i] == names[i]);
        assert(forall|i: int| 0 <= i < front_keys.len() ==> front_keys[i] == keys[i]);
        assert forall|name: Seq<char>| #[trigger]
            keys.contains(name) implies names.contains(Some(name)) by {
            let at = choose|i: int| 0 <= i < keys.len() && keys[i] == name;
            if at < front_keys.len() {
                assert(front_keys[at] == name);
                assert(front_keys.contains(name));
                assert(front.contains(Some(name)));
                let group = choose|i: int| 0 <= i < front.len() && front[i] == Some(name);
                assert(names[group] == Some(name));
            } else {
                assert(names[names.len() - 1] == Some(name));
            }
        }
        assert forall|name: Seq<char>| names.contains(Some(name)) implies #[trigger] keys.contains(
            name,
        ) by {
            let group = choose|i: int| 0 <= i < names.len() && names[i] == Some(name);
            if group < front.len() {
                assert(front[group] == Some(name));
                assert(front.contains(Some(name)));
                assert(front_keys.contains(name));
                let at = choose|i: int| 0 <= i < front_keys.len() && front_keys[i] == name;
                assert(keys[at] == name);
            } else if front_keys.contains(name) {
                let at = choose|i: int| 0 <= i < front_keys.len() && front_keys[i] == name;
                assert(keys[at] == name);
            } else {
                assert(keys[keys.len() - 1] == name);
            }
        }
        assert forall|i: int, j: int| 0 <= i < keys.len() && 0 <= j < keys.len() && i != j
            implies keys[i] != keys[j] by {
            if i < front_keys.len() && j < front_keys.len() {
                assert(front_keys[i] != front_keys[j]);
            } else if i < front_keys.len() {
                assert(front_keys[i] == keys[i]);
                assert(front_keys.contains(keys[i]));
            } else if j < front_keys.len() {
                assert(front_keys[j] == keys[j]);
                assert(front_keys.contains(keys[j]));
            }
        }
    }
}

/// A name that no group has is given no text.
pub proof fn lemma_texts_of_absent(names: Seq<Option<Seq<char>>>, captures: Texts, name: Seq<char>)
    requires
        !names.contains(Some(name)),
    ensures
        texts_of(names, captures, name) == Seq::<Option<Seq<char>>>::empty(),
    decreases names.len(),
{
    if names.len() > 0 {
        let front = names.drop_last();
        assert(names[names.len() - 1] != Some(name));
        assert forall|i: int| 0 <= i < front.len() implies front[i] != Some(name) by {
            assert(names[i] == front[i]);
        }
        lemma_texts_of_absent(front, captures, name);
    }
}

/// Gives the named captures of the match that `value` embeds, as a hash from
/// each name to the array of its texts.
///
/// The call fails with `Fatal` where the value embeds no match of this heap or
/// the pattern of the match was never compiled, and with `NoMatch` where the
/// pattern does not match.
pub fn method(heap: &Heap<MatchData>, value: &Value) -> (result: Result<Value, Error>)
    ensures
        match heap@.lookup(value@) {
            Err(_) => result == Err::<Value, Error>(Error::Fatal),
            Ok(slot) => match method_spec(heap@.slots[slot].object->Some_0) {
                Ok(term) => result matches Ok(hash) && hash@ == term,
                Err(error) => result == Err::<Value, Error>(error),
            },
        },
{
    let data = match heap.borrow(value) {
        Ok(data) => data,
        Err(_) => {
            return Err(Error::Fatal);
        },
    };
    let names = match &data.capture_names {
        Some(names) => names,
        None => {
            return Err(Error::Fatal);
        },
    };
    let captures = match &data.captures {
        Some(captures) => captures,
        None => {
            return Err(Error::NoMatch);
        },
    };
    let pairs = group(names, captures);
    proof {
        lemma_representable(pairs.deep_view());
    }
    Ok(pairs.convert())
}

/// Every list of named captures has a VM representation.
proof fn lemma_representable(entries: Seq<(Seq<char>, Texts)>)
    ensures
        Vec::<(String, Vec<Option<String>>)>::representable(entries),
{
    assert forall|i: int| 0 <= i < entries.len() implies String::representable(
        (#[trigger] entries[i]).0,
    ) && Vec::<Option<String>>::representable(entries[i].1) by {
        let texts = entries[i].1;
        assert forall|j: int| 0 <= j < texts.len() implies Option::<String>::representable(
            #[trigger] texts[j],
        ) by {
            match texts[j] {
                Some(text) => {
                    assert(String::representable(text));
                },
                None => {},
            }
        }
    }
}

/// A copy of an optional text.
fn copy_text(text: &Option<String>) -> (copy: Option<String>)
    ensures
        copy.deep_view() == text.deep_view(),
{
    match text {
        Some(text) => Some(text.clone()),
        None => None,
    }
}

/// What one more group adds to the named captures of the groups before it:
/// nothing where it has no name; its text, to the entry of its name where
/// there is one; and else a new entry behind all others.
proof fn lemma_grouped_step(names: Seq<Option<Seq<char>>>, captures: Texts)
    requires
        names.len() > 0,
    ensures
        ({
            let before = grouped(names.drop_last(), captures);
            let after = grouped(names, captures);
            let captured = capture_at(captures, names.len() - 1);
            &&& names.last() is None ==> after == before
            &&& forall|place: int|
                0 <= place < before.len() && names.last() == Some(before[place].0) ==> after
                    == #[trigger] before.update(
                    place,
                    (before[place].0, before[place].1.push(captured)),
                )
            &&& names.last() is Some && (forall|i: int|
                0 <= i < before.len() ==> (#[trigger] before[i]).0 != names.last()->Some_0)
                ==> after == before.push((names.last()->Some_0, seq![captured]))
        }),
{
    let front = names.drop_last();
    let keys = distinct_names(front);
    let before = grouped(front, captures);
    let after = grouped(names, captures);
    let captured = capture_at(captures, names.len() - 1);
    lemma_distinct_names(front);
    match names.last() {
        None => {
            assert(after =~= before);
        },
        Some(name) => {
            assert forall|place: int|
                0 <= place < before.len() && names.last() == Some(
                    before[place].0,
                ) implies after == #[trigger] before.update(
                place,
                (before[place].0, before[place].1.push(captured)),
            ) by {
                assert(keys[place] == name);
                assert(keys.contains(name));
                assert forall|i: int| 0 <= i < keys.len() implies #[trigger] after[i]
                    == before.update(place, (name, before[place].1.push(captured)))[i] by {
                    if i != place {
                        assert(keys[i] != keys[place]);
                    }
                }
                assert(after =~= before.update(place, (name, before[place].1.push(captured))));
            }
            if forall|i: int| 0 <= i < before.len() ==> (#[trigger] before[i]).0 != name {
                if keys.contains(name) {
                    let at = choose|i: int| 0 <= i < keys.len() && keys[i] == name;
                    assert(before[at].0 == name);
                }
                assert(!front.contains(Some(name)));
                lemma_texts_of_absent(front, captures, name);
                assert(Seq::<Option<Seq<char>>>::empty().push(captured) =~= seq![captured]);
                assert forall|i: int| 0 <= i < keys.len() + 1 implies #[trigger] after[i]
                    == before.push((name, seq![captured]))[i] by {
                    if i < keys.len() {
                        assert(keys.contains(keys[i]));
                    }
                }
                assert(after =~= before.push((name, seq![captured])));
            }
        },
    }
}

/// Collects the texts of the named groups by name.
fn group(names: &Vec<Option<String>>, captures: &Vec<Option<String>>) -> (entries: Vec<
    (String, Vec<Option<String>>),
>)
    ensures
        entries.deep_view() == grouped(names.deep_view(), captures.deep_view()),
{
    let ghost all = names.deep_view();
    let ghost texts = captures.deep_view();
    let mut entries: Vec<(String, Vec<Option<String>>)> = Vec::new();
    let mut group: usize = 0;
    assert(entries.deep_view() =~= grouped(all.take(0), texts));
    while group < names.len()
        invariant
            group <= names.len(),
            all == names.deep_view(),
            texts == captures.deep_view(),
            entries.deep_view() == grouped(all.take(group as int), texts),
        decreases names.len() - group,
    {
        let ghost before = entries.deep_view();
        let ghost next = all.take(group + 1);
        proof {
            assert(next.drop_last() =~= all.take(group as int));
            assert(next.last() == names[group as int].deep_view());
            lemma_grouped_step(next, texts);
        }
        match &names[group] {
            Some(name) => {
                let text = if group < captures.len() {
                    copy_text(&captures[group])
                } else {
                    None
                };
                let ghost captured = capture_at(texts, group as int);
                assert(text.deep_view() == captured);
                let mut place: usize = 0;
                while place < entries.len() && !entries[place].0.eq(name)
                    invariant
                        place <= entries.len(),
                        entries.deep_view() == before,
                        forall|i: int| 0 <= i < place ==> (#[trigger] before[i]).0 != name@,
                    decreases entries.len() - place,
                {
                    assert(before[place as int].0 == entries[place as int].0@);
                    place += 1;
                }
                if place < entries.len() {
                    assert(before[place as int].0 == entries[place as int].0@);
                    let ghost old_texts = entries[place as int].1.deep_view();
                    entries[place].1.push(text);
                    assert(entries[place as int].1.deep_view() =~= old_texts.push(captured));
                    assert(entries.deep_view() =~= before.update(
                        place as int,
                        (before[place as int].0, before[place as int].1.push(captured)),
                    ));
                } else {
                    let mut list: Vec<Option<String>> = Vec::new();
                    list.push(text);
                    assert(list.deep_view() =~= seq![captured]);
                    entries.push((name.clone(), list));
                    assert(entries.deep_view() =~= before.push((name@, seq![captured])));
                }
            },
            None => {},
        }
        group += 1;
    }
    assert(all.take(group as int) =~= all);
    entries
}

} // verus!
