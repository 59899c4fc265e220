//! Sets of names and tables keyed by name, kept as lists in which no name
//! stands twice.

use crate::lookup::{keys_of, position, views, Keyed};
use crate::text::str_eq;
use vstd::prelude::*;

verus! {

/// A set of names.
#[derive(Debug, Clone)]
pub struct NameSet {
    names: Vec<String>,
}

impl View for NameSet {
    type V = Set<Seq<char>>;

    closed spec fn view(&self) -> Set<Seq<char>> {
        views(self.names@).to_set()
    }
}

/// Whether `name` stands at some position of `names`.
fn holds(names: &Vec<String>, name: &str) -> (found: bool)
    ensures
        found == views(names@).contains(name@),
{
    let mut i: usize = 0;
    while i < names.len()
        invariant
            i <= names.len(),
            forall|j: int| 0 <= j < i ==> views(names@)[j] != name@,
        decreases names.len() - i,
    {
        if str_eq(names[i].as_str(), name) {
            assert(views(names@)[i as int] == name@);
            return true;
        }
        i = i + 1;
    }
    false
}

impl NameSet {
    /// No name stands twice in the list.
    pub closed spec fn wf(&self) -> bool {
        views(self.names@).no_duplicates()
    }

    /// The empty set.
    pub fn new() -> (set: NameSet)
        ensures
            set.wf(),
            set@ == Set::<Seq<char>>::empty(),
    {
        let set = NameSet { names: Vec::new() };
        assert(set@ =~= Set::<Seq<char>>::empty());
        set
    }

    /// Whether the set holds `name`.
    pub fn contains(&self, name: &str) -> (found: bool)
        ensures
            found == self@.contains(name@),
    {
        holds(&self.names, name)
    }

    /// Puts `name` into the set. The result says whether it was new.
    pub fn insert(&mut self, name: String) -> (added: bool)
        requires
            old(self).wf(),
        ensures
            final(self).wf(),
            final(self)@ == old(self)@.insert(name@),
            added == !old(self)@.contains(name@),
    {
        if holds(&self.names, name.as_str()) {
            assert(self@ =~= self@.insert(name@));
            false
        } else {
            let ghost before = views(self.names@);
            self.names.push(name);
            proof {
                assert(views(self.names@) =~= before.push(name@));
                before.lemma_push_to_set_commute(name@);
            }
            true
        }
    }

    /// Puts every name of `names` into the set.
    pub fn extend_from(&mut self, names: &Vec<String>)
        requires
            old(self).wf(),
        ensures
            final(self).wf(),
            final(self)@ == old(self)@.union(views(names@).to_set()),
    {
        let ghost all = views(names@);
        let mut i: usize = 0;
        assert(all.take(0).to_set() =~= Set::<Seq<char>>::empty());
        assert(self@.union(Set::<Seq<char>>::empty()) =~= self@);
        while i < names.len()
            invariant
                i <= names.len(),
                all == views(names@),
                self.wf(),
                self@ == old(self)@.union(all.take(i as int).to_set()),
            decreases names.len() - i,
        {
            self.insert(names[i].clone());
            proof {
                assert(all.take(i as int + 1) =~= all.take(i as int).push(all[i as int]));
                all.take(i as int).lemma_push_to_set_commute(all[i as int]);
                assert(self@ =~= old(self)@.union(all.take(i as int + 1).to_set()));
            }
            i = i + 1;
        }
        assert(all.take(i as int) =~= all);
    }

    /// Puts every name of `other` into the set.
    pub fn extend(&mut self, other: &NameSet)
        requires
            old(self).wf(),
        ensures
            final(self).wf(),
            final(self)@ == old(self)@.union(other@),
    {
        self.extend_from(&other.names);
    }

    /// The names of the set, each once.
    pub fn names(&self) -> (names: &Vec<String>)
        requires
            self.wf(),
        ensures
            views(names@).no_duplicates(),
            views(names@).to_set() == self@,
    {
        &self.names
    }

    /// The names of the set, each once.
    pub fn into_names(self) -> (names: Vec<String>)
        requires
            self.wf(),
        ensures
            views(names@).no_duplicates(),
            views(names@).to_set() == self@,
    {
        self.names
    }

    /// The number of names in the set.
    pub fn len(&self) -> (count: usize)
        requires
            self.wf(),
        ensures
            count == self@.len(),
    {
        proof {
            views(self.names@).unique_seq_to_set();
        }
        self.names.len()
    }
}

/// The names that `members` yields for any of `ids`, taken together.
pub open spec fn union_over(ids: Seq<Seq<char>>, members: spec_fn(Seq<char>) -> Set<Seq<char>>)
    -> Set<Seq<char>> {
    Set::new(
        |name: Seq<char>|
            exists|k: int| 0 <= k < ids.len() && members(#[trigger] ids[k]).contains(name),
    )
}

/// Nothing comes of no identifier.
pub proof fn lemma_union_over_empty(members: spec_fn(Seq<char>) -> Set<Seq<char>>)
    ensures
        union_over(Seq::empty(), members) == Set::<Seq<char>>::empty(),
{
    assert(union_over(Seq::empty(), members) =~= Set::<Seq<char>>::empty());
}

/// One more identifier adds what `members` yields for it.
pub proof fn lemma_union_over_push(
    ids: Seq<Seq<char>>,
    id: Seq<char>,
    members: spec_fn(Seq<char>) -> Set<Seq<char>>,
)
    ensures
        union_over(ids.push(id), members) == union_over(ids, members).union(members(id)),
{
    let longer = ids.push(id);
    assert forall|name: Seq<char>|
        union_over(longer, members).contains(name) <==> union_over(ids, members).union(
            members(id),
        ).contains(name) by {
        if union_over(longer, members).contains(name) {
            let w = choose|w: int|
                0 <= w < longer.len() && members(#[trigger] longer[w]).contains(name);
            if w < ids.len() {
                assert(ids[w] == longer[w]);
            }
        }
        if union_over(ids, members).contains(name) {
            let w = choose|w: int| 0 <= w < ids.len() && members(#[trigger] ids[w]).contains(name);
            assert(longer[w] == ids[w]);
        }
        if members(id).contains(name) {
            assert(longer[ids.len() as int] == id);
        }
    }
    assert(union_over(longer, members) =~= union_over(ids, members).union(members(id)));
}

/// An item under the name that it is filed under.
#[derive(Debug, Clone)]
pub struct Named<T> {
    pub key: String,
    pub item: T,
}

impl<T> Keyed for Named<T> {
    open spec fn key(&self) -> Seq<char> {
        self.key@
    }

    fn key_text(&self) -> (text: &str) {
        self.key.as_str()
    }
}

/// A table of items, each filed under a name of its own.
#[derive(Debug, Clone)]
pub struct NameMap<T> {
    entries: Vec<Named<T>>,
}

impl<T> View for NameMap<T> {
    type V = Map<Seq<char>, T>;

    closed spec fn view(&self) -> Map<Seq<char>, T> {
        Map::new(
            |name: Seq<char>| keys_of(self.entries@).contains(name),
            |name: Seq<char>| self.entries@[keys_of(self.entries@).index_of(name)].item,
        )
    }
}

impl<T> NameMap<T> {
    /// No name stands twice in the table.
    pub closed spec fn wf(&self) -> bool {
        keys_of(self.entries@).no_duplicates()
    }

    /// The names of the table, in the order in which they were filed.
    pub closed spec fn key_seq(&self) -> Seq<Seq<char>> {
        keys_of(self.entries@)
    }

    /// The empty table.
    pub fn new() -> (table: NameMap<T>)
        ensures
            table.wf(),
            table@ == Map::<Seq<char>, T>::empty(),
            table.key_seq() == Seq::<Seq<char>>::empty(),
    {
        let table = NameMap { entries: Vec::new() };
        assert(table@ =~= Map::<Seq<char>, T>::empty());
        assert(table.key_seq() =~= Seq::<Seq<char>>::empty());
        table
    }

    /// Files `item` under `key`. Where the name is taken, the table stays as
    /// it is and the item comes back.
    pub fn insert(&mut self, key: String, item: T) -> (refused: Option<T>)
        requires
            old(self).wf(),
        ensures
            final(self).wf(),
            match refused {
                Some(back) => old(self)@.contains_key(key@) && back == item && final(self)@
                    == old(self)@ && final(self).key_seq() == old(self).key_seq(),
                None => !old(self)@.contains_key(key@) && final(self)@ == old(self)@.insert(
                    key@,
                    item,
                ) && final(self).key_seq() == old(self).key_seq().push(key@),
            },
    {
        match position(&self.entries, key.as_str()) {
            Some(at) => {
                assert(keys_of(self.entries@)[at as int] == key@);
                Some(item)
            },
            None => {
                let ghost before = self.entries@;
                let ghost table = self@;
                self.entries.push(Named { key, item });
                proof {
                    let after = self.entries@;
                    assert(keys_of(after) =~= keys_of(before).push(key@));
                    assert forall|name: Seq<char>| #[trigger]
                        self@.dom().contains(name) <==> table.insert(key@, item).dom().contains(
                            name,
                        ) by {
                        if keys_of(after).contains(name) {
                            let at = choose|at: int|
                                0 <= at < after.len() && keys_of(after)[at] == name;
                            if at < before.len() {
                                assert(keys_of(before)[at] == name);
                            }
                        }
                        if keys_of(before).contains(name) {
                            let at = choose|at: int|
                                0 <= at < before.len() && keys_of(before)[at] == name;
                            assert(keys_of(after)[at] == name);
                        }
                        if name == key@ {
                            assert(keys_of(after)[before.len() as int] == name);
                        }
                    }
                    assert forall|name: Seq<char>| #[trigger]
                        self@.dom().contains(name) implies self@[name] == table.insert(
                        key@,
                        item,
                    )[name] by {
                        let at = keys_of(after).index_of(name);
                        assert(keys_of(after)[at] == name);
                        if at < before.len() {
                            assert(keys_of(before)[at] == name);
                            let was = keys_of(before).index_of(name);
                            assert(keys_of(before)[was] == name);
                            assert(was == at);
                            assert(after[at] == before[at]);
                        }
                    }
                    assert(self@ =~= table.insert(key@, item));
                }
                None
            },
        }
    }

    /// The item filed under `key`.
    pub fn get(&self, key: &str) -> (found: Option<&T>)
        requires
            self.wf(),
        ensures
            match found {
                Some(item) => self@.contains_key(key@) && *item == self@[key@],
                None => !self@.contains_key(key@),
            },
    {
        match position(&self.entries, key) {
            Some(at) => {
                proof {
                    let names = keys_of(self.entries@);
                    assert(names[at as int] == key@);
                    let chosen = names.index_of(key@);
                    assert(names[chosen] == key@);
                    assert(chosen == at);
                }
                Some(&self.entries[at].item)
            },
            None => None,
        }
    }

    /// The names of the table, each once, in the order in which they were filed.
    pub fn keys(&self) -> (names: Vec<String>)
        requires
            self.wf(),
        ensures
            views(names@) == self.key_seq(),
            views(names@).no_duplicates(),
            views(names@).to_set() == self@.dom(),
    {
        let names = crate::lookup::keys(&self.entries);
        assert(views(names@).to_set() =~= self@.dom());
        names
    }

    /// The entries of the table, in the order in which they were filed.
    pub fn entries(&self) -> (entries: &Vec<Named<T>>)
        requires
            self.wf(),
        ensures
            keys_of(entries@) == self.key_seq(),
            keys_of(entries@).no_duplicates(),
            forall|i: int|
                0 <= i < entries.len() ==> self@.contains_key(#[trigger] entries@[i].key@)
                    && self@[entries@[i].key@] == entries@[i].item,
    {
        proof {
            let names = keys_of(self.entries@);
            assert forall|i: int| 0 <= i < self.entries.len() implies self@.contains_key(
                #[trigger] self.entries@[i].key@,
            ) && self@[self.entries@[i].key@] == self.entries@[i].item by {
                assert(names[i] == self.entries@[i].key@);
                let chosen = names.index_of(self.entries@[i].key@);
                assert(names[chosen] == names[i]);
                assert(chosen == i);
            }
        }
        &self.entries
    }

    /// The number of items in the table.
    pub fn len(&self) -> (count: usize)
        ensures
            count == self.key_seq().len(),
    {
        self.entries.len()
    }
}

} // verus!
