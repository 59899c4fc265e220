//! The headers of a message: as the lines that arrived, and gathered by name.
//!
//! Header names are compared without regard to the case of ASCII letters.
//! The library keeps them in lower case.

use crate::lookup::{copy_texts, keys_of, position, views, Keyed};
use crate::text::{ascii_lower, to_ascii_lower};
use vstd::prelude::*;

verus! {

/// All values that a message gave for one header name, in the order in which
/// they arrived.
#[derive(Debug, Clone, PartialEq, Eq)]
pub struct HeaderEntry {
    pub name: String,
    pub values: Vec<String>,
}

impl Keyed for HeaderEntry {
    open spec fn key(&self) -> Seq<char> {
        self.name@
    }

    fn key_text(&self) -> (text: &str) {
        self.name.as_str()
    }
}

/// Header lines as mathematical values: name and value of each line.
pub open spec fn line_views(lines: Seq<(String, String)>) -> Seq<(Seq<char>, Seq<char>)> {
    Seq::new(lines.len(), |i: int| (lines[i].0@, lines[i].1@))
}

/// The test whether a header line bears the lower-case name `name`.
pub open spec fn named(name: Seq<char>) -> spec_fn((Seq<char>, Seq<char>)) -> bool {
    |line: (Seq<char>, Seq<char>)| ascii_lower(line.0) == name
}

/// The value of a header line.
pub open spec fn value_of() -> spec_fn((Seq<char>, Seq<char>)) -> Seq<char> {
    |line: (Seq<char>, Seq<char>)| line.1
}

/// The values of the lines that bear the lower-case name `name`, in the
/// order of the lines.
pub open spec fn values_named(lines: Seq<(Seq<char>, Seq<char>)>, name: Seq<char>) -> Seq<
    Seq<char>,
> {
    lines.filter(named(name)).map_values(value_of())
}

/// Whether some line bears the lower-case name `name`.
pub open spec fn has_name(lines: Seq<(Seq<char>, Seq<char>)>, name: Seq<char>) -> bool {
    exists|i: int| 0 <= i < lines.len() && ascii_lower(#[trigger] lines[i].0) == name
}

/// Header lines gathered by name: each lower-case name that occurs, with the
/// values of its lines in their order.
pub open spec fn gathered(lines: Seq<(Seq<char>, Seq<char>)>) -> Map<Seq<char>, Seq<Seq<char>>> {
    Map::new(|name: Seq<char>| has_name(lines, name), |name: Seq<char>| values_named(lines, name))
}

/// The value of the first line that bears the lower-case name `name`, if
/// there is such a line.
pub open spec fn first_line_value(lines: Seq<(Seq<char>, Seq<char>)>, name: Seq<char>) -> Option<
    Seq<char>,
>
    decreases lines.len(),
{
    if lines.len() == 0 {
        None
    } else if ascii_lower(lines[0].0) == name {
        Some(lines[0].1)
    } else {
        first_line_value(lines.drop_first(), name)
    }
}

/// The first of the values gathered under a name is the value of the first
/// line that bears the name; no value is gathered where no line bears it.
pub proof fn lemma_first_gathered_value(lines: Seq<(Seq<char>, Seq<char>)>, name: Seq<char>)
    ensures
        first_line_value(lines, name) == if values_named(lines, name).len() > 0 {
            Some(values_named(lines, name)[0])
        } else {
            None
        },
        has_name(lines, name) <==> values_named(lines, name).len() > 0,
    decreases lines.len(),
{
    if lines.len() == 0 {
        reveal(Seq::filter);
        assert(lines.filter(named(name)) =~= Seq::empty());
    } else {
        let head = lines[0];
        let rest = lines.drop_first();
        assert(lines =~= seq![head] + rest);
        rest.lemma_filter_prepend(head, named(name));
        lemma_first_gathered_value(rest, name);
        if ascii_lower(head.0) == name {
            let kept = seq![head] + rest.filter(named(name));
            assert(kept[0] == head);
            assert(kept.map_values(value_of())[0] == head.1);
        } else {
            assert(Seq::<(Seq<char>, Seq<char>)>::empty() + rest.filter(named(name))
                =~= rest.filter(named(name)));
            if has_name(lines, name) {
                let w = choose|w: int|
                    0 <= w < lines.len() && ascii_lower(#[trigger] lines[w].0) == name;
                assert(rest[w - 1] == lines[w]);
                assert(ascii_lower(rest[w - 1].0) == name);
            }
            if has_name(rest, name) {
                let w = choose|w: int|
                    0 <= w < rest.len() && ascii_lower(#[trigger] rest[w].0) == name;
                assert(lines[w + 1] == rest[w]);
                assert(ascii_lower(lines[w + 1].0) == name);
            }
        }
    }
}

/// Whether no two entries bear the same name.
pub open spec fn distinct_names(entries: Seq<HeaderEntry>) -> bool {
    keys_of(entries).no_duplicates()
}

/// The entries as a mapping from each name to its values.
pub open spec fn entries_map(entries: Seq<HeaderEntry>) -> Map<Seq<char>, Seq<Seq<char>>> {
    Map::new(
        |name: Seq<char>| keys_of(entries).contains(name),
        |name: Seq<char>| views(entries[keys_of(entries).index_of(name)].values@),
    )
}

/// What one more line adds to the values under a name.
pub proof fn lemma_values_named_push(
    lines: Seq<(Seq<char>, Seq<char>)>,
    line: (Seq<char>, Seq<char>),
    name: Seq<char>,
)
    ensures
        values_named(lines.push(line), name) == if ascii_lower(line.0) == name {
            values_named(lines, name).push(line.1)
        } else {
            values_named(lines, name)
        },
{
    lines.lemma_filter_push(line, named(name));
    if ascii_lower(line.0) == name {
        lines.filter(named(name)).lemma_push_map_commute(value_of(), line);
    }
}

/// No line bears the name: no value stands under it.
pub proof fn lemma_values_named_absent(lines: Seq<(Seq<char>, Seq<char>)>, name: Seq<char>)
    requires
        !has_name(lines, name),
    ensures
        values_named(lines, name) == Seq::<Seq<char>>::empty(),
    decreases lines.len(),
{
    if lines.len() == 0 {
        reveal(Seq::filter);
        assert(values_named(lines, name) =~= Seq::<Seq<char>>::empty());
    } else {
        let rest = lines.drop_last();
        assert(lines =~= rest.push(lines.last()));
        assert(ascii_lower(lines[lines.len() - 1].0) != name);
        assert forall|i: int| 0 <= i < rest.len() implies ascii_lower(#[trigger] rest[i].0)
            != name by {
            assert(rest[i] == lines[i]);
        }
        lemma_values_named_absent(rest, name);
        lemma_values_named_push(rest, lines.last(), name);
    }
}

/// Gathers header lines by name. Names are made lower-case; the values of
/// one name keep the order in which their lines stand.
pub fn gather(lines: &Vec<(String, String)>) -> (entries: Vec<HeaderEntry>)
    ensures
        distinct_names(entries@),
        entries_map(entries@) == gathered(line_views(lines@)),
{
    let ghost all = line_views(lines@);
    let mut entries: Vec<HeaderEntry> = Vec::new();
    let mut i: usize = 0;
    while i < lines.len()
        invariant
            i <= lines.len(),
            all == line_views(lines@),
            distinct_names(entries@),
            forall|name: Seq<char>|
                keys_of(entries@).contains(name) <==> has_name(all.take(i as int), name),
            forall|k: int|
                0 <= k < entries.len() ==> views(#[trigger] entries@[k].values@) == values_named(
                    all.take(i as int),
                    entries@[k].name@,
                ),
        decreases lines.len() - i,
    {
        let name = to_ascii_lower(lines[i].0.as_str());
        let value = lines[i].1.clone();
        let ghost before = entries@;
        let ghost seen = all.take(i as int);
        let ghost line = all[i as int];
        proof {
            assert(all.take(i as int + 1) =~= seen.push(line));
            assert(line == (lines@[i as int].0@, lines@[i as int].1@));
            assert forall|j: int| 0 <= j < before.len() implies keys_of(before)[j]
                == before[j].name@ by {}
        }
        match position(&entries, name.as_str()) {
            Some(k) => {
                entries[k].values.push(value);
                proof {
                    assert(keys_of(entries@) =~= keys_of(before));
                    assert forall|j: int| 0 <= j < entries.len() implies views(
                        #[trigger] entries@[j].values@,
                    ) == values_named(seen.push(line), entries@[j].name@) by {
                        lemma_values_named_push(seen, line, entries@[j].name@);
                        if j == k {
                            assert(views(entries@[j].values@) =~= views(before[j].values@).push(
                                value@,
                            ));
                        } else {
                            assert(keys_of(before)[j] != keys_of(before)[k as int]);
                        }
                    }
                    assert forall|n: Seq<char>|
                        keys_of(entries@).contains(n) <==> has_name(seen.push(line), n) by {
                        if has_name(seen.push(line), n) {
                            let w = choose|w: int|
                                0 <= w < seen.push(line).len() && ascii_lower(
                                    #[trigger] seen.push(line)[w].0,
                                ) == n;
                            if w < seen.len() {
                                assert(seen[w] == seen.push(line)[w]);
                                assert(has_name(seen, n));
                            } else {
                                assert(keys_of(before)[k as int] == n);
                            }
                        }
                        if keys_of(before).contains(n) {
                            let w = choose|w: int|
                                0 <= w < seen.len() && ascii_lower(#[trigger] seen[w].0) == n;
                            assert(seen.push(line)[w] == seen[w]);
                        }
                    }
                }
            },
            None => {
                let mut values: Vec<String> = Vec::new();
                values.push(value);
                entries.push(HeaderEntry { name, values });
                proof {
                    let added = entries@[before.len() as int];
                    assert(keys_of(entries@) =~= keys_of(before).push(added.name@));
                    assert(!has_name(seen, added.name@));
                    lemma_values_named_absent(seen, added.name@);
                    assert forall|j: int| 0 <= j < entries.len() implies views(
                        #[trigger] entries@[j].values@,
                    ) == values_named(seen.push(line), entries@[j].name@) by {
                        lemma_values_named_push(seen, line, entries@[j].name@);
                        if j == before.len() {
                            assert(views(added.values@) =~= Seq::<Seq<char>>::empty().push(
                                value@,
                            ));
                        } else {
                            assert(entries@[j] == before[j]);
                            assert(keys_of(before)[j] == before[j].name@);
                            assert(keys_of(before).contains(before[j].name@));
                        }
                    }
                    let grown = seen.push(line);
                    assert forall|n: Seq<char>| keys_of(entries@).contains(n) implies has_name(
                        grown,
                        n,
                    ) by {
                        let at = choose|at: int|
                            0 <= at < entries.len() && keys_of(entries@)[at] == n;
                        if at < before.len() {
                            assert(keys_of(before)[at] == n);
                            assert(keys_of(before).contains(n));
                            assert(has_name(seen, n));
                            let w = choose|w: int|
                                0 <= w < seen.len() && ascii_lower(#[trigger] seen[w].0) == n;
                            assert(grown[w] == seen[w]);
                            assert(ascii_lower(grown[w].0) == n);
                        } else {
                            assert(grown[seen.len() as int] == line);
                            assert(ascii_lower(grown[seen.len() as int].0) == n);
                        }
                    }
                    assert forall|n: Seq<char>| has_name(grown, n) implies keys_of(
                        entries@,
                    ).contains(n) by {
                        let w = choose|w: int|
                            0 <= w < grown.len() && ascii_lower(#[trigger] grown[w].0) == n;
                        if w < seen.len() {
                            assert(seen[w] == grown[w]);
                            assert(ascii_lower(seen[w].0) == n);
                            assert(has_name(seen, n));
                            assert(keys_of(before).contains(n));
                            let at = choose|at: int|
                                0 <= at < before.len() && keys_of(before)[at] == n;
                            assert(keys_of(entries@)[at] == n);
                        } else {
                            assert(keys_of(entries@)[before.len() as int] == n);
                        }
                    }
                }
            },
        }
        i = i + 1;
    }
    proof {
        assert(all.take(i as int) =~= all);
        lemma_entries_map(entries@, all);
    }
    entries
}

/// Whether two lists of entries hold the same names with the same values,
/// position by position.
pub open spec fn same_entries(a: Seq<HeaderEntry>, b: Seq<HeaderEntry>) -> bool {
    &&& a.len() == b.len()
    &&& forall|k: int|
        0 <= k < a.len() ==> (#[trigger] a[k]).name@ == b[k].name@ && views(a[k].values@) == views(
            b[k].values@,
        )
}

/// Lists of entries that hold the same names with the same values are the
/// same mapping, and the names of one are distinct where those of the other are.
pub proof fn lemma_entries_map_same(a: Seq<HeaderEntry>, b: Seq<HeaderEntry>)
    requires
        same_entries(a, b),
    ensures
        keys_of(a) == keys_of(b),
        entries_map(a) == entries_map(b),
        distinct_names(a) == distinct_names(b),
{
    assert forall|k: int| 0 <= k < a.len() implies keys_of(a)[k] == keys_of(b)[k] by {
        assert(a[k].name@ == b[k].name@);
    }
    assert(keys_of(a) =~= keys_of(b));
    assert forall|name: Seq<char>| #[trigger]
        entries_map(a).dom().contains(name) implies entries_map(a)[name] == entries_map(b)[name] by {
        let at = keys_of(a).index_of(name);
        assert(keys_of(a)[at] == name);
        assert(views(a[at].values@) == views(b[at].values@));
    }
    assert(entries_map(a) =~= entries_map(b));
}

/// Copies a list of entries.
pub fn copy_entries(entries: &Vec<HeaderEntry>) -> (copy: Vec<HeaderEntry>)
    ensures
        same_entries(entries@, copy@),
{
    let mut copy: Vec<HeaderEntry> = Vec::new();
    let mut i: usize = 0;
    while i < entries.len()
        invariant
            i <= entries.len(),
            copy.len() == i,
            forall|k: int|
                0 <= k < i ==> (#[trigger] entries@[k]).name@ == copy@[k].name@ && views(
                    entries@[k].values@,
                ) == views(copy@[k].values@),
        decreases entries.len() - i,
    {
        let name = entries[i].name.clone();
        let values = copy_texts(&entries[i].values);
        copy.push(HeaderEntry { name, values });
        i = i + 1;
    }
    copy
}

/// Entries that hold, under distinct names, exactly the values that the
/// lines give for each name are the lines gathered by name.
proof fn lemma_entries_map(entries: Seq<HeaderEntry>, lines: Seq<(Seq<char>, Seq<char>)>)
    requires
        distinct_names(entries),
        forall|name: Seq<char>| keys_of(entries).contains(name) <==> has_name(lines, name),
        forall|k: int|
            0 <= k < entries.len() ==> views(#[trigger] entries[k].values@) == values_named(
                lines,
                entries[k].name@,
            ),
    ensures
        entries_map(entries) == gathered(lines),
{
    assert forall|name: Seq<char>| #[trigger]
        entries_map(entries).dom().contains(name) implies entries_map(entries)[name] == gathered(
        lines,
    )[name] by {
        let at = keys_of(entries).index_of(name);
        assert(keys_of(entries)[at] == name);
        assert(entries[at].name@ == name);
    }
    assert(entries_map(entries) =~= gathered(lines));
}

} // verus!
