//! The filter map of a query: each filter key with the comma-joined terms
//! given for it, in the order in which the keys were first set.
use vstd::prelude::*;
use vstd::string::*;

verus! {

/// Filter entries as (key, comma-joined terms) pairs.
pub type FilterEntries = Seq<(Seq<char>, Seq<char>)>;

/// No key occurs twice.
pub open spec fn distinct_keys(f: FilterEntries) -> bool {
    forall|i: int, j: int|
        0 <= i < f.len() && 0 <= j < f.len() && i != j ==> #[trigger] f[i].0 != #[trigger] f[j].0
}

/// Whether a filter is set under `k`.
pub open spec fn has_key(f: FilterEntries, k: Seq<char>) -> bool {
    exists|i: int| 0 <= i < f.len() && #[trigger] f[i].0 == k
}

/// The entries after adding term `v` under key `k`: a new key is appended with
/// `v` as its value; a present key gets `,` and `v` appended to its value.
pub open spec fn upserted(f: FilterEntries, k: Seq<char>, v: Seq<char>) -> FilterEntries {
    if has_key(f, k) {
        let i = choose|i: int| 0 <= i < f.len() && #[trigger] f[i].0 == k;
        f.update(i, (k, f[i].1 + seq![','] + v))
    } else {
        f.push((k, v))
    }
}

/// Maps each filter key to the comma-joined terms given for it. Keys keep the
/// order in which they were first set and are never removed.
pub struct FilterMap {
    entries: Vec<(String, String)>,
}

spec fn entry_views(e: Seq<(String, String)>) -> FilterEntries {
    e.map_values(|p: (String, String)| (p.0@, p.1@))
}

impl View for FilterMap {
    type V = FilterEntries;

    closed spec fn view(&self) -> FilterEntries {
        entry_views(self.entries@)
    }
}

impl FilterMap {
    #[verifier::type_invariant]
    spec fn keys_are_distinct(&self) -> bool {
        distinct_keys(self@)
    }

    /// An empty filter map.
    pub fn new() -> (r: FilterMap)
        ensures
            r@ == Seq::<(Seq<char>, Seq<char>)>::empty(),
    {
        let r = FilterMap { entries: Vec::new() };
        assert(r@ =~= Seq::<(Seq<char>, Seq<char>)>::empty());
        r
    }

    /// Number of keys.
    pub fn len(&self) -> (r: usize)
        ensures
            r == self@.len(),
    {
        self.entries.len()
    }

    /// Whether no filter is set.
    pub fn is_empty(&self) -> (r: bool)
        ensures
            r == (self@.len() == 0),
    {
        self.entries.len() == 0
    }

    /// The key of entry `i`.
    pub fn key_at(&self, i: usize) -> (r: &String)
        requires
            i < self@.len(),
        ensures
            r@ == self@[i as int].0,
    {
        &self.entries[i].0
    }

    /// The comma-joined terms of entry `i`.
    pub fn value_at(&self, i: usize) -> (r: &String)
        requires
            i < self@.len(),
        ensures
            r@ == self@[i as int].1,
    {
        &self.entries[i].1
    }

    /// The comma-joined terms set under `key`, if any.
    pub fn get(&self, key: &str) -> (r: Option<&String>)
        ensures
            r is Some <==> has_key(self@, key@),
            r matches Some(v) ==> exists|i: int|
                0 <= i < self@.len() && #[trigger] self@[i].0 == key@ && self@[i].1 == v@,
    {
        let k = key.to_owned();
        let mut i: usize = 0;
        while i < self.entries.len()
            invariant
                i <= self@.len(),
                self@.len() == self.entries@.len(),
                k@ == key@,
                forall|j: int| 0 <= j < i ==> #[trigger] self@[j].0 != key@,
            decreases self.entries.len() - i,
        {
            if self.entries[i].0 == k {
                assert(self@[i as int].0 == key@);
                return Some(&self.entries[i].1);
            }
            i += 1;
        }
        None
    }

    /// Adds `value` under `key`: a new key gets `value`; a present key gets a
    /// comma and `value` appended to its terms.
    pub fn add_or_update(self, key: &str, value: &str) -> (r: FilterMap)
        ensures
            r@ == upserted(self@, key@, value@),
            distinct_keys(r@),
    {
        proof {
            use_type_invariant(&self);
        }
        let ghost f = self@;
        let mut entries = self.entries;
        let k = key.to_owned();
        let n = entries.len();
        let mut i: usize = 0;
        while i < n
            invariant
                i <= n,
                n == entries@.len(),
                entry_views(entries@) == f,
                f == self@,
                distinct_keys(f),
                k@ == key@,
                forall|j: int| 0 <= j < i ==> #[trigger] f[j].0 != key@,
            decreases n - i,
        {
            if entries[i].0 == k {
                assert(f[i as int].0 == key@);
                assert(has_key(f, key@));
                let ghost c = choose|c: int| 0 <= c < f.len() && #[trigger] f[c].0 == key@;
                assert(c == i);
                let ghost old_terms = f[i as int].1;
                let mut joined = entries[i].1.clone();
                joined.append(",");
                joined.append(value);
                proof {
                    reveal_strlit(",");
                }
                assert(joined@ == old_terms + seq![','] + value@);
                entries[i] = (k, joined);
                assert(entry_views(entries@) =~= upserted(f, key@, value@));
                return FilterMap { entries };
            }
            i += 1;
        }
        entries.push((k, value.to_owned()));
        assert(!has_key(f, key@));
        assert(entry_views(entries@) =~= upserted(f, key@, value@));
        FilterMap { entries }
    }
}

} // verus!
