//! A table of filters by name.

use vstd::prelude::*;
use crate::style::{lemma_names_distinct, CaseStyle};

verus! {

/// A table from filter names to filters, each filter given by its style.
///
/// A name occurs at most once: registering under a name that is taken
/// replaces the filter that was there.
pub struct Registry {
    entries: Vec<(String, CaseStyle)>,
}

/// Whether `entries` holds an entry named `name` at `i`.
pub open spec fn named_at(entries: Seq<(String, CaseStyle)>, name: Seq<char>, i: int) -> bool {
    0 <= i < entries.len() && entries[i].0@ == name
}

/// Whether no two entries share a name.
pub open spec fn names_unique(entries: Seq<(String, CaseStyle)>) -> bool {
    forall|i: int, j: int|
        0 <= i < j < entries.len() ==> (#[trigger] entries[i]).0@ != (#[trigger] entries[j]).0@
}

/// The table that `entries` stands for.
spec fn table_of(entries: Seq<(String, CaseStyle)>) -> Map<Seq<char>, CaseStyle> {
    Map::new(
        |name: Seq<char>| exists|i: int| named_at(entries, name, i),
        |name: Seq<char>| entries[choose|i: int| named_at(entries, name, i)].1,
    )
}

/// The seven filters under their names.
pub open spec fn standard_filters() -> Map<Seq<char>, CaseStyle> {
    Map::new(
        |name: Seq<char>| exists|style: CaseStyle| style.name_spec() == name,
        |name: Seq<char>| choose|style: CaseStyle| style.name_spec() == name,
    )
}

/// Each style is in [`standard_filters`] under its own name, and nothing
/// else is.
pub proof fn lemma_standard_filters(style: CaseStyle)
    ensures
        standard_filters().contains_key(style.name_spec()),
        standard_filters()[style.name_spec()] == style,
        forall|name: Seq<char>| #[trigger]
            standard_filters().contains_key(name) ==> standard_filters()[name].name_spec()
                == name,
{
    let found = choose|other: CaseStyle| other.name_spec() == style.name_spec();
    lemma_names_distinct(found, style);
}

/// In a sequence without a repeated name, the table holds for each name the
/// style of the one entry that bears it.
proof fn lemma_table_lookup(entries: Seq<(String, CaseStyle)>, name: Seq<char>, i: int)
    requires
        names_unique(entries),
        named_at(entries, name, i),
    ensures
        table_of(entries).contains_key(name),
        table_of(entries)[name] == entries[i].1,
{
    let c = choose|c: int| named_at(entries, name, c);
    if c < i {
        assert(entries[c].0@ != entries[i].0@);
    } else if i < c {
        assert(entries[i].0@ != entries[c].0@);
    }
}

impl Registry {
    /// Whether the table is well formed: no name is held twice. Every table
    /// that this module hands out is.
    pub closed spec fn wf(&self) -> bool {
        names_unique(self.entries@)
    }

    /// The table as a map from names to styles.
    pub closed spec fn view(&self) -> Map<Seq<char>, CaseStyle> {
        table_of(self.entries@)
    }

    /// A table with no filter in it.
    pub fn new() -> (r: Registry)
        ensures
            r.wf(),
            r@ == Map::<Seq<char>, CaseStyle>::empty(),
    {
        let r = Registry { entries: Vec::new() };
        assert(r@ =~= Map::<Seq<char>, CaseStyle>::empty());
        r
    }

    /// The position of the entry named `name`, if there is one.
    fn position(&self, name: &String) -> (r: Option<usize>)
        ensures
            match r {
                Some(i) => named_at(self.entries@, name@, i as int),
                None => forall|i: int| !named_at(self.entries@, name@, i),
            },
    {
        let mut i: usize = 0;
        while i < self.entries.len()
            invariant
                i <= self.entries.len(),
                forall|j: int| 0 <= j < i ==> !named_at(self.entries@, name@, j),
            decreases self.entries.len() - i,
        {
            if self.entries[i].0 == *name {
                return Some(i);
            }
            i += 1;
        }
        None
    }

    /// The filter registered under `name`, if there is one.
    pub fn get(&self, name: &str) -> (r: Option<CaseStyle>)
        requires
            self.wf(),
        ensures
            r == (if self@.contains_key(name@) {
                Some(self@[name@])
            } else {
                None
            }),
    {
        let key = name.to_owned();
        match self.position(&key) {
            Some(i) => {
                assert(named_at(self.entries@, name@, i as int));
                Some(self.entries[i].1)
            },
            None => None,
        }
    }

    /// Registers the filter of `style` under `name`. A filter that was
    /// registered under that name is replaced.
    pub fn register_filter(&mut self, name: &str, style: CaseStyle)
        requires
            old(self).wf(),
        ensures
            final(self).wf(),
            final(self)@ == old(self)@.insert(name@, style),
    {
        let key = name.to_owned();
        match self.position(&key) {
            Some(i) => {
                self.entries.set(i, (key, style));
                assert(named_at(self.entries@, name@, i as int));
                assert forall|k: Seq<char>, j: int|
                    named_at(self.entries@, k, j) == named_at(old(self).entries@, k, j) by {}
                assert(names_unique(self.entries@)) by {
                    assert forall|a: int, b: int|
                        0 <= a < b < self.entries@.len() implies (#[trigger] self.entries@[a]).0@
                        != (#[trigger] self.entries@[b]).0@ by {
                        assert(old(self).entries@[a].0@ != old(self).entries@[b].0@);
                    }
                }
            },
            None => {
                self.entries.push((key, style));
                assert(named_at(self.entries@, name@, self.entries@.len() - 1));
                assert forall|k: Seq<char>, j: int|
                    named_at(self.entries@, k, j) == (named_at(old(self).entries@, k, j) || (k
                        == name@ && j == old(self).entries@.len())) by {}
                assert(names_unique(self.entries@)) by {
                    assert forall|a: int, b: int|
                        0 <= a < b < self.entries@.len() implies (#[trigger] self.entries@[a]).0@
                        != (#[trigger] self.entries@[b]).0@ by {
                        if b < old(self).entries@.len() {
                            assert(old(self).entries@[a].0@ != old(self).entries@[b].0@);
                        } else {
                            assert(!named_at(old(self).entries@, name@, a));
                        }
                    }
                }
            },
        }
        assert(self@ =~= old(self)@.insert(name@, style));
    }

    /// The entries of the table, each name with its style.
    pub fn filters(&self) -> (r: Vec<(String, CaseStyle)>)
        requires
            self.wf(),
        ensures
            names_unique(r@),
            forall|i: int|
                0 <= i < r@.len() ==> self@.contains_key((#[trigger] r@[i]).0@) && self@[r@[i].0@]
                    == r@[i].1,
            forall|name: Seq<char>| #[trigger]
                self@.contains_key(name) ==> exists|i: int| named_at(r@, name, i),
    {
        let mut out: Vec<(String, CaseStyle)> = Vec::new();
        let mut i: usize = 0;
        while i < self.entries.len()
            invariant
                i <= self.entries.len(),
                out@ == self.entries@.subrange(0, i as int),
            decreases self.entries.len() - i,
        {
            let name = self.entries[i].0.clone();
            out.push((name, self.entries[i].1));
            i += 1;
        }
        assert(out@ == self.entries@);
        assert forall|i: int| 0 <= i < out@.len() implies self@.contains_key(
            (#[trigger] out@[i]).0@,
        ) && self@[out@[i].0@] == out@[i].1 by {
            lemma_table_lookup(self.entries@, out@[i].0@, i);
        }
        out
    }
}

/// Registers the seven filters, each under its own name.
///
/// Filters that were registered under other names stay; one that was
/// registered under one of the seven names is replaced.
pub fn register_all(registry: &mut Registry)
    requires
        old(registry).wf(),
    ensures
        final(registry).wf(),
        final(registry)@ == old(registry)@.union_prefer_right(standard_filters()),
{
    registry.register_filter("camel_case", CaseStyle::Camel);
    registry.register_filter("kebab_case", CaseStyle::Kebab);
    registry.register_filter("lower_case", CaseStyle::Lower);
    registry.register_filter("mixed_case", CaseStyle::Mixed);
    registry.register_filter("snake_case", CaseStyle::Snake);
    registry.register_filter("title_case", CaseStyle::Title);
    registry.register_filter("upper_case", CaseStyle::Upper);
    proof {
        lemma_standard_filters(CaseStyle::Camel);
        lemma_standard_filters(CaseStyle::Kebab);
        lemma_standard_filters(CaseStyle::Lower);
        lemma_standard_filters(CaseStyle::Mixed);
        lemma_standard_filters(CaseStyle::Snake);
        lemma_standard_filters(CaseStyle::Title);
        lemma_standard_filters(CaseStyle::Upper);
        assert(registry@ =~= old(registry)@.union_prefer_right(standard_filters()));
    }
}

} // verus!
