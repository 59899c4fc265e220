//! Finding an item of a list by the text that names it.

use crate::text::str_eq;
use vstd::prelude::*;

verus! {

/// The views of a list of texts.
pub open spec fn views(texts: Seq<String>) -> Seq<Seq<char>> {
    Seq::new(texts.len(), |i: int| texts[i]@)
}

/// An item that a text names.
pub trait Keyed {
    /// The text that names the item.
    spec fn key(&self) -> Seq<char>;

    /// The text that names the item.
    fn key_text(&self) -> (text: &str)
        ensures
            text@ == self.key(),
    ;
}

/// The names of the items of a list, in the list's order.
pub open spec fn keys_of<T: Keyed>(items: Seq<T>) -> Seq<Seq<char>> {
    Seq::new(items.len(), |i: int| items[i].key())
}

/// Whether `i` is the first position at which `keys` holds `wanted`.
pub open spec fn is_first_at(keys: Seq<Seq<char>>, wanted: Seq<char>, i: int) -> bool {
    &&& 0 <= i < keys.len()
    &&& keys[i] == wanted
    &&& forall|j: int| 0 <= j < i ==> keys[j] != wanted
}

/// The first position at which an item of the list is named `wanted`.
pub fn position<T: Keyed>(items: &Vec<T>, wanted: &str) -> (at: Option<usize>)
    ensures
        match at {
            Some(i) => is_first_at(keys_of(items@), wanted@, i as int),
            None => !keys_of(items@).contains(wanted@),
        },
{
    let mut i: usize = 0;
    while i < items.len()
        invariant
            i <= items.len(),
            forall|j: int| 0 <= j < i ==> keys_of(items@)[j] != wanted@,
        decreases items.len() - i,
    {
        if str_eq(items[i].key_text(), wanted) {
            return Some(i);
        }
        i = i + 1;
    }
    None
}

/// The names of the items of a list, in the list's order.
pub fn keys<T: Keyed>(items: &Vec<T>) -> (names: Vec<String>)
    ensures
        views(names@) == keys_of(items@),
{
    let mut names: Vec<String> = Vec::new();
    let mut i: usize = 0;
    while i < items.len()
        invariant
            i <= items.len(),
            names.len() == i,
            forall|j: int| 0 <= j < i ==> names@[j]@ == items@[j].key(),
        decreases items.len() - i,
    {
        names.push(items[i].key_text().to_owned());
        i = i + 1;
    }
    assert(views(names@) =~= keys_of(items@));
    names
}

/// Copies a list of texts.
pub fn copy_texts(texts: &Vec<String>) -> (copy: Vec<String>)
    ensures
        views(copy@) == views(texts@),
{
    let mut copy: Vec<String> = Vec::new();
    let mut i: usize = 0;
    while i < texts.len()
        invariant
            i <= texts.len(),
            copy.len() == i,
            forall|j: int| 0 <= j < i ==> copy@[j]@ == texts@[j]@,
        decreases texts.len() - i,
    {
        copy.push(texts[i].clone());
        i = i + 1;
    }
    assert(views(copy@) =~= views(texts@));
    copy
}

} // verus!
