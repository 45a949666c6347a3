//! A map from names to values that keeps its entries in the order in which
//! their names first arrived.

use vstd::prelude::*;

verus! {

/// No name occurs in two entries.
pub open spec fn distinct_names<T>(entries: Seq<(Seq<char>, T)>) -> bool {
    forall|i: int, j: int| 0 <= i < j < entries.len() ==> entries[i].0 != entries[j].0
}

/// The index of the first entry under `name`; the number of entries where
/// there is none.
pub open spec fn position<T>(entries: Seq<(Seq<char>, T)>, name: Seq<char>) -> int
    decreases entries.len(),
{
    if entries.len() == 0 || entries[0].0 == name {
        0
    } else {
        1 + position(entries.drop_first(), name)
    }
}

/// The value stored under `name`, if any.
pub open spec fn lookup<T>(entries: Seq<(Seq<char>, T)>, name: Seq<char>) -> Option<T> {
    let at = position(entries, name);
    if at < entries.len() {
        Some(entries[at].1)
    } else {
        None
    }
}

/// The entries after `value` is stored under `name`: an entry of that name
/// keeps its place and takes the new value, a new name goes to the end.
pub open spec fn put<T>(entries: Seq<(Seq<char>, T)>, name: Seq<char>, value: T) -> Seq<
    (Seq<char>, T),
> {
    let at = position(entries, name);
    if at < entries.len() {
        entries.update(at, (name, value))
    } else {
        entries.push((name, value))
    }
}

/// The entries without the one under `name`; all of them where there is none.
pub open spec fn without<T>(entries: Seq<(Seq<char>, T)>, name: Seq<char>) -> Seq<(Seq<char>, T)> {
    let at = position(entries, name);
    if at < entries.len() {
        entries.remove(at)
    } else {
        entries
    }
}

/// `position` is the one index that holds the name and has no entry of that
/// name before it.
pub proof fn lemma_position<T>(entries: Seq<(Seq<char>, T)>, name: Seq<char>)
    ensures
        0 <= position(entries, name) <= entries.len(),
        position(entries, name) < entries.len() ==> entries[position(entries, name)].0 == name,
        forall|k: int| 0 <= k < position(entries, name) ==> (#[trigger] entries[k]).0 != name,
    decreases entries.len(),
{
    if entries.len() == 0 || entries[0].0 == name {
    } else {
        let rest = entries.drop_first();
        lemma_position(rest, name);
        assert forall|k: int| 0 <= k < position(entries, name) implies (#[trigger] entries[k]).0
            != name by {
            if k > 0 {
                assert(entries[k] == rest[k - 1]);
            }
        }
    }
}

/// An index that holds the name, with no entry of that name before it, is
/// the name's position.
pub proof fn lemma_position_is<T>(entries: Seq<(Seq<char>, T)>, name: Seq<char>, at: int)
    requires
        0 <= at <= entries.len(),
        at < entries.len() ==> entries[at].0 == name,
        forall|k: int| 0 <= k < at ==> (#[trigger] entries[k]).0 != name,
    ensures
        position(entries, name) == at,
    decreases entries.len(),
{
    if entries.len() == 0 || entries[0].0 == name {
        if at > 0 {
            assert(entries[0].0 != name);
        }
    } else {
        let rest = entries.drop_first();
        assert forall|k: int| 0 <= k < at - 1 implies (#[trigger] rest[k]).0 != name by {
            assert(entries[k + 1].0 != name);
        }
        lemma_position_is(rest, name, at - 1);
    }
}

/// Storing a value keeps the names distinct, makes the value the one found
/// under its name, and leaves what is found under every other name as it was.
pub proof fn lemma_put<T>(entries: Seq<(Seq<char>, T)>, name: Seq<char>, value: T)
    requires
        distinct_names(entries),
    ensures
        distinct_names(put(entries, name, value)),
        lookup(put(entries, name, value), name) == Some(value),
        forall|other: Seq<char>|
            other != name ==> lookup(put(entries, name, value), other) == lookup(entries, other),
{
    let after = put(entries, name, value);
    let at = position(entries, name);
    lemma_position(entries, name);
    lemma_position_is(after, name, at);
    assert forall|other: Seq<char>| other != name implies lookup(after, other) == lookup(
        entries,
        other,
    ) by {
        let there = position(entries, other);
        lemma_position(entries, other);
        if there < entries.len() {
            lemma_position_is(after, other, there);
        } else {
            lemma_position_is(after, other, after.len() as int);
        }
    }
}

/// Where no entry up to index `upto`, the one at `at` aside, has the name,
/// no entry before `upto` has it once the entry at `at` is removed.
proof fn lemma_absent_after_remove<T>(
    entries: Seq<(Seq<char>, T)>,
    at: int,
    name: Seq<char>,
    upto: int,
)
    requires
        0 <= at < entries.len(),
        0 <= upto <= entries.len() - 1,
        forall|j: int| 0 <= j <= upto && j != at ==> (#[trigger] entries[j]).0 != name,
    ensures
        forall|k: int| 0 <= k < upto ==> (#[trigger] entries.remove(at)[k]).0 != name,
{
    let after = entries.remove(at);
    assert forall|k: int| 0 <= k < upto implies (#[trigger] after[k]).0 != name by {
        if k < at {
            assert(after[k] == entries[k]);
        } else {
            assert(after[k] == entries[k + 1]);
        }
    }
}

/// Removing a name keeps the names distinct, leaves nothing under that name,
/// and leaves what is found under every other name as it was.
pub proof fn lemma_without<T>(entries: Seq<(Seq<char>, T)>, name: Seq<char>)
    requires
        distinct_names(entries),
    ensures
        distinct_names(without(entries, name)),
        lookup(without(entries, name), name) is None,
        forall|other: Seq<char>|
            other != name ==> lookup(without(entries, name), other) == lookup(entries, other),
        lookup(entries, name) is None ==> without(entries, name) == entries,
{
    let after = without(entries, name);
    let at = position(entries, name);
    lemma_position(entries, name);
    if at < entries.len() {
        lemma_absent_after_remove(entries, at, name, after.len() as int);
        lemma_position_is(after, name, after.len() as int);
        assert forall|other: Seq<char>| other != name implies lookup(after, other) == lookup(
            entries,
            other,
        ) by {
            let there = position(entries, other);
            lemma_position(entries, other);
            if there < at {
                lemma_position_is(after, other, there);
            } else if there < entries.len() {
                lemma_absent_after_remove(entries, at, other, there - 1);
                lemma_position_is(after, other, there - 1);
            } else {
                lemma_absent_after_remove(entries, at, other, after.len() as int);
                lemma_position_is(after, other, after.len() as int);
            }
        }
    }
}

/// Values by name. Each name has at most one entry.
pub struct Registry<T> {
    entries: Vec<(String, T)>,
}

impl<T> View for Registry<T> {
    type V = Seq<(Seq<char>, T)>;

    closed spec fn view(&self) -> Seq<(Seq<char>, T)> {
        model_of(self.entries@)
    }
}

/// The stored entries with each name as the text that it holds.
spec fn model_of<T>(entries: Seq<(String, T)>) -> Seq<(Seq<char>, T)> {
    Seq::new(entries.len(), |i: int| (entries[i].0@, entries[i].1))
}

impl<T> Registry<T> {
    #[verifier::type_invariant]
    spec fn inv(self) -> bool {
        distinct_names(self@)
    }

    /// A registry without entries.
    pub fn new() -> (registry: Self)
        ensures
            registry@ == Seq::<(Seq<char>, T)>::empty(),
    {
        let registry = Registry { entries: Vec::new() };
        assert(registry@ =~= Seq::<(Seq<char>, T)>::empty());
        registry
    }

    /// The number of entries.
    pub fn len(&self) -> (len: usize)
        ensures
            len == self@.len(),
            distinct_names(self@),
    {
        proof {
            use_type_invariant(self);
        }
        self.entries.len()
    }

    /// The name of the entry at `index`.
    pub fn name_at(&self, index: usize) -> (name: &String)
        requires
            index < self@.len(),
        ensures
            name@ == self@[index as int].0,
    {
        &self.entries[index].0
    }

    /// The value of the entry at `index`.
    pub fn value_at(&self, index: usize) -> (value: &T)
        requires
            index < self@.len(),
        ensures
            *value == self@[index as int].1,
    {
        &self.entries[index].1
    }

    /// Where the name's entry stands; the number of entries where it has none.
    pub fn find(&self, name: &String) -> (at: usize)
        ensures
            at == position(self@, name@),
            at <= self@.len(),
    {
        let mut at: usize = 0;
        while at < self.entries.len() && self.entries[at].0 != *name
            invariant
                at <= self.entries.len(),
                forall|k: int| 0 <= k < at ==> (#[trigger] self@[k]).0 != name@,
            decreases self.entries.len() - at,
        {
            at += 1;
        }
        proof {
            lemma_position_is(self@, name@, at as int);
        }
        at
    }

    /// The value stored under the name, if any.
    pub fn get(&self, name: &String) -> (value: Option<&T>)
        ensures
            value is Some <==> lookup(self@, name@) is Some,
            value is Some ==> *value->0 == lookup(self@, name@)->0,
    {
        let at = self.find(name);
        if at < self.entries.len() {
            Some(&self.entries[at].1)
        } else {
            None
        }
    }

    /// Stores the value under the name. An entry of that name keeps its
    /// place and takes the new value; a new name goes to the end.
    pub fn insert(&mut self, name: String, value: T)
        ensures
            final(self)@ == put(old(self)@, name@, value),
            lookup(final(self)@, name@) == Some(value),
            forall|other: Seq<char>|
                other != name@ ==> lookup(final(self)@, other) == lookup(old(self)@, other),
            lookup(old(self)@, name@) is Some ==> final(self)@.len() == old(self)@.len(),
            lookup(old(self)@, name@) is None ==> final(self)@ == old(self)@.push((name@, value)),
    {
        proof {
            use_type_invariant(&*self);
            lemma_put(self@, name@, value);
        }
        let at = self.find(&name);
        let ghost before = self@;
        let ghost key = name@;
        let mut entries: Vec<(String, T)> = Vec::new();
        assert(model_of(entries@) =~= Seq::<(Seq<char>, T)>::empty());
        core::mem::swap(&mut self.entries, &mut entries);
        if at < entries.len() {
            entries[at] = (name, value);
        } else {
            entries.push((name, value));
        }
        assert(model_of(entries@) =~= put(before, key, value));
        core::mem::swap(&mut self.entries, &mut entries);
    }

    /// Removes the entry under the name and says whether there was one.
    /// Where there is none, nothing changes.
    pub fn remove(&mut self, name: &String) -> (removed: bool)
        ensures
            final(self)@ == without(old(self)@, name@),
            removed == (lookup(old(self)@, name@) is Some),
            removed ==> final(self)@.len() == old(self)@.len() - 1,
            !removed ==> final(self)@ == old(self)@,
            lookup(final(self)@, name@) is None,
            forall|other: Seq<char>|
                other != name@ ==> lookup(final(self)@, other) == lookup(old(self)@, other),
    {
        proof {
            use_type_invariant(&*self);
            lemma_without(self@, name@);
        }
        let at = self.find(name);
        let ghost before = self@;
        if at < self.entries.len() {
            let mut entries: Vec<(String, T)> = Vec::new();
            assert(model_of(entries@) =~= Seq::<(Seq<char>, T)>::empty());
            core::mem::swap(&mut self.entries, &mut entries);
            let _ = entries.remove(at);
            assert(model_of(entries@) =~= without(before, name@));
            core::mem::swap(&mut self.entries, &mut entries);
            true
        } else {
            false
        }
    }
}

} // verus!
