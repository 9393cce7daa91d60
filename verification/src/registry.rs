//! The table of the variants of one kind of component: each is registered
//! under a name, with the factory that makes a fresh instance of it.

use vstd::prelude::*;

verus! {

/// Calls `str::eq`: whether two string slices hold the same text.
#[verifier::external_body]
fn str_eq(a: &str, b: &str) -> (same: bool)
    ensures
        same == (a@ == b@),
{
    a == b
}

/// Whether `i` is the position of the first entry called `name`.
pub open spec fn is_first<F>(entries: Seq<(Seq<char>, F)>, name: Seq<char>, i: int) -> bool {
    &&& 0 <= i < entries.len()
    &&& entries[i].0 == name
    &&& forall|j: int| 0 <= j < i ==> (#[trigger] entries[j]).0 != name
}

/// The position of the first entry called `name`, if there is one.
pub open spec fn position_of<F>(entries: Seq<(Seq<char>, F)>, name: Seq<char>) -> Option<int> {
    if exists|i: int| is_first(entries, name, i) {
        Some(choose|i: int| is_first(entries, name, i))
    } else {
        None
    }
}

/// No two entries have the same name.
pub open spec fn distinct_names<F>(entries: Seq<(Seq<char>, F)>) -> bool {
    forall|i: int, j: int|
        0 <= i < j < entries.len() ==> (#[trigger] entries[i]).0 != (#[trigger] entries[j]).0
}

/// The entries once `factory` has been registered as `name`: it takes the
/// place of the factory that had the name, or else comes last.
pub open spec fn registered<F>(entries: Seq<(Seq<char>, F)>, name: Seq<char>, factory: F) -> Seq<
    (Seq<char>, F),
> {
    match position_of(entries, name) {
        Some(i) => entries.update(i, (name, factory)),
        None => entries.push((name, factory)),
    }
}

/// Every factory of the table may be called.
pub open spec fn all_callable<F: Fn() -> R, R>(entries: Seq<(Seq<char>, F)>) -> bool {
    forall|i: int| 0 <= i < entries.len() ==> call_requires((#[trigger] entries[i]).1, ())
}

/// The first entry called `name` is at `i` and nowhere else.
pub proof fn lemma_first<F>(entries: Seq<(Seq<char>, F)>, name: Seq<char>, i: int)
    requires
        is_first(entries, name, i),
    ensures
        position_of(entries, name) == Some(i),
{
    let found = choose|k: int| is_first(entries, name, k);
    if found < i {
        assert(entries[found].0 != name);
    } else if i < found {
        assert(entries[i].0 != name);
    }
}

/// Where no entry is called `name`, the name has no position.
pub proof fn lemma_absent<F>(entries: Seq<(Seq<char>, F)>, name: Seq<char>)
    requires
        forall|i: int| 0 <= i < entries.len() ==> (#[trigger] entries[i]).0 != name,
    ensures
        position_of(entries, name) is None,
{
}

/// Registering keeps the names distinct.
pub proof fn lemma_registered_distinct<F>(
    entries: Seq<(Seq<char>, F)>,
    name: Seq<char>,
    factory: F,
)
    requires
        distinct_names(entries),
    ensures
        distinct_names(registered(entries, name, factory)),
{
    let after = registered(entries, name, factory);
    match position_of(entries, name) {
        Some(i) => {
            assert forall|a: int, b: int| 0 <= a < b < after.len() implies (#[trigger] after[a]).0
                != (#[trigger] after[b]).0 by {
                assert(entries[a].0 != entries[b].0);
            }
        },
        None => {
            assert forall|a: int, b: int| 0 <= a < b < after.len() implies (#[trigger] after[a]).0
                != (#[trigger] after[b]).0 by {
                if b < entries.len() {
                    assert(entries[a].0 != entries[b].0);
                } else if exists|k: int| 0 <= k < entries.len() && (#[trigger] entries[k]).0 == name {
                    lemma_some_first(entries, name);
                } else {
                    assert(entries[a].0 != name);
                }
            }
        },
    }
}

/// Where some entry is called `name`, there is a first one.
proof fn lemma_some_first<F>(entries: Seq<(Seq<char>, F)>, name: Seq<char>)
    requires
        exists|k: int| 0 <= k < entries.len() && (#[trigger] entries[k]).0 == name,
    ensures
        position_of(entries, name) is Some,
{
    let k = choose|k: int| 0 <= k < entries.len() && (#[trigger] entries[k]).0 == name;
    lemma_first_up_to(entries, name, k);
}

/// Where the entry at `k` is called `name`, there is a first entry of that
/// name at or before `k`.
proof fn lemma_first_up_to<F>(entries: Seq<(Seq<char>, F)>, name: Seq<char>, k: int)
    requires
        0 <= k < entries.len(),
        entries[k].0 == name,
    ensures
        exists|i: int| is_first(entries, name, i),
    decreases k,
{
    if exists|j: int| 0 <= j < k && (#[trigger] entries[j]).0 == name {
        let j = choose|j: int| 0 <= j < k && (#[trigger] entries[j]).0 == name;
        lemma_first_up_to(entries, name, j);
    } else {
        assert(is_first(entries, name, k));
    }
}

/// An ordered table from names to factories, one entry per name, in the
/// order in which the names were first registered.
pub struct Registry<F> {
    entries: Vec<(&'static str, F)>,
}

impl<F> View for Registry<F> {
    type V = Seq<(Seq<char>, F)>;

    /// The entries in order: each a name and its factory.
    closed spec fn view(&self) -> Seq<(Seq<char>, F)> {
        Seq::new(self.entries@.len(), |i: int| (self.entries@[i].0@, self.entries@[i].1))
    }
}

impl<F> Registry<F> {
    /// No two entries have the same name. A table that is made with `new`
    /// and filled with `register` is so.
    pub open spec fn wf(&self) -> bool {
        distinct_names(self@)
    }

    /// The empty table.
    pub fn new() -> (registry: Self)
        ensures
            registry.wf(),
            registry@ == Seq::<(Seq<char>, F)>::empty(),
    {
        let registry = Registry { entries: Vec::new() };
        assert(registry@ =~= Seq::<(Seq<char>, F)>::empty());
        registry
    }

    /// The number of entries.
    pub fn len(&self) -> (len: usize)
        ensures
            len == self@.len(),
    {
        self.entries.len()
    }

    /// The position of the first entry called `name`, if there is one.
    pub fn position(&self, name: &str) -> (found: Option<usize>)
        ensures
            match found {
                Some(i) => position_of(self@, name@) == Some(i as int) && is_first(
                    self@,
                    name@,
                    i as int,
                ),
                None => position_of(self@, name@) is None,
            },
    {
        let mut i: usize = 0;
        while i < self.entries.len()
            invariant
                i <= self.entries@.len(),
                forall|k: int| 0 <= k < i ==> (#[trigger] self@[k]).0 != name@,
            decreases self.entries@.len() - i,
        {
            if str_eq(self.entries[i].0, name) {
                proof {
                    lemma_first(self@, name@, i as int);
                }
                return Some(i);
            }
            i += 1;
        }
        proof {
            lemma_absent(self@, name@);
        }
        None
    }

    /// The name of the entry at `index`; `None` past the end.
    pub fn name_at(&self, index: usize) -> (name: Option<&'static str>)
        ensures
            index < self@.len() ==> name is Some && name->0@ == self@[index as int].0,
            index >= self@.len() ==> name is None,
    {
        if index < self.entries.len() {
            Some(self.entries[index].0)
        } else {
            None
        }
    }

    /// The names of the entries, in order.
    pub fn names(&self) -> (names: Vec<&'static str>)
        ensures
            names@.len() == self@.len(),
            forall|i: int| 0 <= i < self@.len() ==> (#[trigger] names@[i])@ == self@[i].0,
    {
        let mut names: Vec<&'static str> = Vec::new();
        let mut i: usize = 0;
        while i < self.entries.len()
            invariant
                i <= self.entries@.len(),
                names@.len() == i,
                forall|k: int| 0 <= k < i ==> (#[trigger] names@[k])@ == self@[k].0,
            decreases self.entries@.len() - i,
        {
            names.push(self.entries[i].0);
            i += 1;
        }
        names
    }

    /// The factory of the entry at `index`; `None` past the end.
    pub fn get_by_index(&self, index: usize) -> (factory: Option<&F>)
        ensures
            index < self@.len() ==> factory == Some(&self@[index as int].1),
            index >= self@.len() ==> factory is None,
    {
        if index < self.entries.len() {
            Some(&self.entries[index].1)
        } else {
            None
        }
    }

    /// The factory registered as `name`; `None` if there is none.
    pub fn get_by_name(&self, name: &str) -> (factory: Option<&F>)
        ensures
            match position_of(self@, name@) {
                Some(i) => 0 <= i < self@.len() && factory == Some(&self@[i].1),
                None => factory is None,
            },
    {
        match self.position(name) {
            Some(i) => Some(&self.entries[i].1),
            None => None,
        }
    }

    /// Registers `factory` as `name`. A name that is already there keeps its
    /// place and gets the new factory; a new name comes last.
    pub fn register(&mut self, name: &'static str, factory: F)
        ensures
            final(self)@ == registered(old(self)@, name@, factory),
            old(self).wf() ==> final(self).wf(),
    {
        proof {
            if self.wf() {
                lemma_registered_distinct(self@, name@, factory);
            }
        }
        match self.position(name) {
            Some(i) => {
                self.entries.set(i, (name, factory));
                assert(self@ =~= old(self)@.update(i as int, (name@, factory)));
            },
            None => {
                self.entries.push((name, factory));
                assert(self@ =~= old(self)@.push((name@, factory)));
            },
        }
    }
}

} // verus!
