//! Choosing which fields of a kind of frame to keep.

use vstd::prelude::*;

use crate::frame_defs::{raw_kind, raw_kind_of};
use crate::text::{string_text, text, texts, to_string};

verus! {

/// A set of field names, by their base name (`rcCommand` for
/// `rcCommand[0]`), kept in a `hashbrown::HashSet`.
#[verifier::external_body]
pub struct FieldFilter {
    names: hashbrown::HashSet<String>,
}

/// The UTF-8 bytes of the names in a field filter.
pub uninterp spec fn filter_names(filter: FieldFilter) -> Set<Seq<u8>>;

/// Calls `hashbrown::HashSet::new`: a set that holds no name.
#[verifier::external_body]
fn empty_names() -> (filter: FieldFilter)
    ensures
        filter_names(filter) == Set::<Seq<u8>>::empty(),
{
    FieldFilter { names: hashbrown::HashSet::new() }
}

/// Calls `hashbrown::HashSet::insert`: the set then also holds `name`.
#[verifier::external_body]
fn insert_name(filter: &mut FieldFilter, name: String)
    ensures
        filter_names(*final(filter)) == filter_names(*old(filter)).insert(string_text(&name)),
{
    filter.names.insert(name);
}

/// Calls `hashbrown::HashSet::contains`: whether the set holds `name`.
#[verifier::external_body]
fn contains_name(filter: &FieldFilter, name: &str) -> (found: bool)
    ensures
        found == filter_names(*filter).contains(text(name)),
{
    filter.names.contains(name)
}

/// The base names of `names`.
pub open spec fn base_names(names: Seq<Seq<u8>>) -> Set<Seq<u8>>
    decreases names.len(),
{
    if names.len() == 0 {
        Set::empty()
    } else {
        base_names(names.drop_last()).insert(raw_kind_of(names.last()))
    }
}

impl FieldFilter {
    /// A filter that keeps the fields whose base name is the base name of
    /// one of `names`.
    pub fn from_names(names: &[&str]) -> (filter: Self)
        ensures
            filter_names(filter) == base_names(texts(names@)),
    {
        let mut filter = empty_names();
        let mut i: usize = 0;
        while i < names.len()
            invariant
                i <= names@.len(),
                filter_names(filter) == base_names(texts(names@).take(i as int)),
            decreases names@.len() - i,
        {
            let base = raw_kind(names[i]);
            insert_name(&mut filter, to_string(base));
            assert(texts(names@).take(i + 1).drop_last() =~= texts(names@).take(i as int));
            i += 1;
        }
        assert(texts(names@).take(names@.len() as int) =~= texts(names@));
        filter
    }

    /// Whether the field named `name` is kept.
    pub fn keeps(&self, name: &str) -> (keep: bool)
        ensures
            keep == filter_names(*self).contains(raw_kind_of(text(name))),
    {
        contains_name(self, raw_kind(name))
    }
}

/// A filter for the fields to include in one kind of frame.
pub enum Filter {
    /// Include all fields of this frame kind.
    Unfiltered,
    /// Include a subset of fields from this frame kind.
    ///
    /// **Note**: Any fields requested that are not present in the log will not
    /// be included.
    OnlyFields(FieldFilter),
}

/// A filter for each kind of frame that can be filtered.
pub struct FilterSet {
    pub main: Filter,
    pub slow: Filter,
    pub gps: Filter,
}

/// The indices of the fields a filter keeps, in order.
#[derive(Debug, Clone)]
pub struct AppliedFilter(pub Vec<usize>);

/// The indices below `n` of the fields of `names` that `filter` keeps, in
/// increasing order.
pub open spec fn kept(filter: Set<Seq<u8>>, names: Seq<Seq<u8>>, n: int) -> Seq<usize>
    decreases n,
{
    if n <= 0 {
        seq![]
    } else {
        let rest = kept(filter, names, n - 1);
        if filter.contains(raw_kind_of(names[n - 1])) {
            rest.push((n - 1) as usize)
        } else {
            rest
        }
    }
}

/// The indices `0..n`.
pub open spec fn all_indices(n: int) -> Seq<usize> {
    Seq::new(n as nat, |i: int| i as usize)
}

impl Filter {
    /// Only include the fields that are always there.
    pub fn only_required() -> (filter: Self)
        ensures
            filter matches Filter::OnlyFields(f) && filter_names(f) == Set::<Seq<u8>>::empty(),
    {
        Filter::OnlyFields(empty_names())
    }

    /// The fields of a frame whose fields are named `names` that this filter
    /// keeps.
    pub fn apply(&self, names: &[&str]) -> (applied: AppliedFilter)
        ensures
            applied.0@ == (match self {
                Filter::Unfiltered => all_indices(names@.len() as int),
                Filter::OnlyFields(f) => kept(filter_names(*f), texts(names@), names@.len() as int),
            }),
    {
        match self {
            Filter::Unfiltered => AppliedFilter::new_unfiltered(names.len()),
            Filter::OnlyFields(f) => {
                let mut kept_indices: Vec<usize> = Vec::new();
                let mut i: usize = 0;
                while i < names.len()
                    invariant
                        i <= names@.len(),
                        kept_indices@ == kept(filter_names(*f), texts(names@), i as int),
                    decreases names@.len() - i,
                {
                    assert(texts(names@)[i as int] == text(names@[i as int]));
                    if f.keeps(names[i]) {
                        kept_indices.push(i);
                    }
                    i += 1;
                }
                AppliedFilter(kept_indices)
            },
        }
    }
}

impl AppliedFilter {
    /// Keeps all of `len` fields.
    pub fn new_unfiltered(len: usize) -> (applied: Self)
        ensures
            applied.0@ == all_indices(len as int),
    {
        let mut all: Vec<usize> = Vec::new();
        let mut i: usize = 0;
        while i < len
            invariant
                i <= len,
                all@ == all_indices(i as int),
            decreases len - i,
        {
            all.push(i);
            i += 1;
            assert(all@ =~= all_indices(i as int));
        }
        AppliedFilter(all)
    }

    /// The number of fields kept.
    pub fn len(&self) -> (n: usize)
        ensures
            n == self.0@.len(),
    {
        self.0.len()
    }

    /// The index among all fields of the `index`-th field kept.
    pub fn get(&self, index: usize) -> (i: Option<usize>)
        ensures
            i == (if index < self.0@.len() {
                Some(self.0@[index as int])
            } else {
                None
            }),
    {
        if index < self.0.len() {
            Some(self.0[index])
        } else {
            None
        }
    }
}

/// A filter keeps a field exactly when the field's base name is in it, and
/// lists the kept fields in increasing order.
pub proof fn lemma_kept(filter: Set<Seq<u8>>, names: Seq<Seq<u8>>, n: int)
    requires
        0 <= n <= names.len() <= usize::MAX,
    ensures
        forall|i: int|
            0 <= i < n ==> (kept(filter, names, n).contains(i as usize) <==> filter.contains(
                raw_kind_of(#[trigger] names[i]),
            )),
        forall|a: int, b: int|
            0 <= a < b < kept(filter, names, n).len() ==> kept(filter, names, n)[a] < kept(
                filter,
                names,
                n,
            )[b],
        forall|a: int| 0 <= a < kept(filter, names, n).len() ==> kept(filter, names, n)[a] < n,
    decreases n,
{
    if n > 0 {
        lemma_kept(filter, names, n - 1);
        let rest = kept(filter, names, n - 1);
        let all = kept(filter, names, n);
        assert forall|i: int| 0 <= i < n implies (all.contains(i as usize) <==> filter.contains(
            raw_kind_of(#[trigger] names[i]),
        )) by {
            if i < n - 1 {
                if all.contains(i as usize) {
                    let k = choose|k: int| 0 <= k < all.len() && all[k] == i as usize;
                    if k < rest.len() {
                        assert(rest[k] == i as usize);
                    }
                }
                if rest.contains(i as usize) {
                    let k = choose|k: int| 0 <= k < rest.len() && rest[k] == i as usize;
                    assert(all[k] == i as usize);
                }
            } else {
                if all.contains(i as usize) {
                    let k = choose|k: int| 0 <= k < all.len() && all[k] == i as usize;
                    if k < rest.len() {
                        assert(rest[k] < n - 1);
                    }
                }
                if filter.contains(raw_kind_of(names[i])) {
                    assert(all.last() == i as usize);
                }
            }
        }
        assert forall|a: int, b: int| 0 <= a < b < all.len() implies all[a] < all[b] by {
            if b < rest.len() {
                assert(all[a] == rest[a] && all[b] == rest[b]);
            } else {
                assert(all[a] == rest[a]);
            }
        }
    }
}

} // verus!
