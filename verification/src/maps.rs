//! Hash maps from the `ahash` crate, used for index deduplication, point
//! welding and material-name bookkeeping.  The map type is declared
//! opaque; for each use a thin struct holds one map instance, an
//! uninterpreted function names its contents, and small trusted wrappers
//! state, over that view, what the crate's operations do.
use crate::vertex::VertexIndices;
use vstd::prelude::*;

verus! {

#[verifier::external_type_specification]
#[verifier::external_body]
pub struct ExAHashRandomState(ahash::RandomState);

#[verifier::external_type_specification]
#[verifier::external_body]
#[verifier::reject_recursive_types(K)]
#[verifier::reject_recursive_types(V)]
#[verifier::reject_recursive_types(S)]
pub struct ExAHashMap<K, V, S>(ahash::AHashMap<K, V, S>);

/// A dedup map from complete vertex references to compact indices.
pub struct ViMap {
    pub inner: ahash::AHashMap<VertexIndices, u32>,
}

/// What a [`ViMap`]'s inner hash map holds.
pub uninterp spec fn vi_map_view(m: ahash::AHashMap<VertexIndices, u32>) -> Map<
    VertexIndices,
    u32,
>;

impl View for ViMap {
    type V = Map<VertexIndices, u32>;

    open spec fn view(&self) -> Map<VertexIndices, u32> {
        vi_map_view(self.inner)
    }
}

impl ViMap {
    /// Relies on `ahash::AHashMap::new`: the new map is empty.
    #[verifier::external_body]
    pub fn new() -> (r: ViMap)
        ensures
            r@.dom() =~= Set::<VertexIndices>::empty(),
    {
        ViMap { inner: ahash::AHashMap::new() }
    }

    /// Relies on `ahash::AHashMap::get` (a standard-library hash map
    /// behind `Deref`): the value stored under the key, if any.
    #[verifier::external_body]
    pub fn get(&self, k: &VertexIndices) -> (r: Option<u32>)
        ensures
            r == if self@.contains_key(*k) {
                Some(self@[*k])
            } else {
                None::<u32>
            },
    {
        self.inner.get(k).copied()
    }

    /// Relies on `ahash::AHashMap::insert`: maps the key to the value,
    /// leaving the rest of the map unchanged.
    #[verifier::external_body]
    pub fn insert(&mut self, k: VertexIndices, v: u32)
        ensures
            vi_map_view(final(self).inner) == vi_map_view(old(self).inner).insert(k, v),
            final(self)@ == old(self)@.insert(k, v),
    {
        self.inner.insert(k, v);
    }

    /// Relies on `ahash::AHashMap::len` (through `Deref`): the number of
    /// stored keys.
    #[verifier::external_body]
    pub fn len(&self) -> (r: usize)
        requires
            self@.dom().finite(),
        ensures
            r == self@.len(),
    {
        self.inner.len()
    }
}

/// A dedup map from raw attribute offsets to compact indices.
pub struct IdxMap {
    pub inner: ahash::AHashMap<usize, u32>,
}

/// What an [`IdxMap`]'s inner hash map holds.
pub uninterp spec fn idx_map_view(m: ahash::AHashMap<usize, u32>) -> Map<usize, u32>;

impl View for IdxMap {
    type V = Map<usize, u32>;

    open spec fn view(&self) -> Map<usize, u32> {
        idx_map_view(self.inner)
    }
}

impl IdxMap {
    /// Relies on `ahash::AHashMap::new`: the new map is empty.
    #[verifier::external_body]
    pub fn new() -> (r: IdxMap)
        ensures
            r@.dom() =~= Set::<usize>::empty(),
    {
        IdxMap { inner: ahash::AHashMap::new() }
    }

    /// Relies on `ahash::AHashMap::get`: the value stored under the key,
    /// if any.
    #[verifier::external_body]
    pub fn get(&self, k: usize) -> (r: Option<u32>)
        ensures
            r == if self@.contains_key(k) {
                Some(self@[k])
            } else {
                None::<u32>
            },
    {
        self.inner.get(&k).copied()
    }

    /// Relies on `ahash::AHashMap::insert`: maps the key to the value,
    /// leaving the rest of the map unchanged.
    #[verifier::external_body]
    pub fn insert(&mut self, k: usize, v: u32)
        ensures
            idx_map_view(final(self).inner) == idx_map_view(old(self).inner).insert(k, v),
            final(self)@ == old(self)@.insert(k, v),
    {
        self.inner.insert(k, v);
    }

    /// Relies on `ahash::AHashMap::len`: the number of stored keys.
    #[verifier::external_body]
    pub fn len(&self) -> (r: usize)
        requires
            self@.dom().finite(),
        ensures
            r == self@.len(),
    {
        self.inner.len()
    }
}

/// The canonical-tuple map of the point-welding pass: a bit-pattern tuple
/// to its compact index.
pub struct Key3Map {
    pub inner: ahash::AHashMap<(u64, u64, u64), u32>,
}

/// What a [`Key3Map`]'s inner hash map holds.
pub uninterp spec fn key3_map_view(m: ahash::AHashMap<(u64, u64, u64), u32>) -> Map<
    (u64, u64, u64),
    u32,
>;

impl View for Key3Map {
    type V = Map<(u64, u64, u64), u32>;

    open spec fn view(&self) -> Map<(u64, u64, u64), u32> {
        key3_map_view(self.inner)
    }
}

impl Key3Map {
    /// Relies on `ahash::AHashMap::new`: the new map is empty.
    #[verifier::external_body]
    pub fn new() -> (r: Key3Map)
        ensures
            r@.dom() =~= Set::<(u64, u64, u64)>::empty(),
    {
        Key3Map { inner: ahash::AHashMap::new() }
    }

    /// Relies on `ahash::AHashMap::get`: the value stored under the key,
    /// if any.
    #[verifier::external_body]
    pub fn get(&self, k: (u64, u64, u64)) -> (r: Option<u32>)
        ensures
            r == if self@.contains_key(k) {
                Some(self@[k])
            } else {
                None::<u32>
            },
    {
        self.inner.get(&k).copied()
    }

    /// Relies on `ahash::AHashMap::insert`: maps the key to the value,
    /// leaving the rest of the map unchanged.
    #[verifier::external_body]
    pub fn insert(&mut self, k: (u64, u64, u64), v: u32)
        ensures
            key3_map_view(final(self).inner) == key3_map_view(old(self).inner).insert(k, v),
            final(self)@ == old(self)@.insert(k, v),
    {
        self.inner.insert(k, v);
    }
}

/// A map from material names to indices into a material list.
pub struct NameMap {
    pub inner: ahash::AHashMap<String, usize>,
}

/// What a [`NameMap`]'s inner hash map holds: each stored name, as its
/// character sequence, with the index mapped to it.
pub uninterp spec fn name_map_view(m: ahash::AHashMap<String, usize>) -> Map<Seq<char>, usize>;

impl View for NameMap {
    type V = Map<Seq<char>, usize>;

    open spec fn view(&self) -> Map<Seq<char>, usize> {
        name_map_view(self.inner)
    }
}

impl NameMap {
    /// Relies on `ahash::AHashMap::new`: the new map is empty.
    #[verifier::external_body]
    pub fn new() -> (r: NameMap)
        ensures
            r@.dom() =~= Set::<Seq<char>>::empty(),
    {
        NameMap { inner: ahash::AHashMap::new() }
    }

    /// Relies on `ahash::AHashMap::get`, with `String` keys compared by
    /// their text: the value stored under the key, if any.
    #[verifier::external_body]
    pub fn get(&self, k: &String) -> (r: Option<usize>)
        ensures
            r == if self@.contains_key(k@) {
                Some(self@[k@])
            } else {
                None::<usize>
            },
    {
        self.inner.get(k).copied()
    }

    /// Relies on `ahash::AHashMap::insert`, with `String` keys compared
    /// by their text: maps the key to the value, leaving the rest
    /// unchanged.
    #[verifier::external_body]
    pub fn insert(&mut self, k: String, v: usize)
        ensures
            name_map_view(final(self).inner) == name_map_view(old(self).inner).insert(k@, v),
            final(self)@ == old(self)@.insert(k@, v),
    {
        self.inner.insert(k, v);
    }

    /// Relies on `ahash::AHashMap::len`: the number of stored keys.
    #[verifier::external_body]
    pub fn len(&self) -> (r: usize)
        requires
            self@.dom().finite(),
        ensures
            r == self@.len(),
    {
        self.inner.len()
    }

    /// Relies on `ahash::AHashMap::iter`: hands out every stored entry
    /// exactly once, in an unspecified order.
    #[verifier::external_body]
    pub fn items(&self) -> (r: Vec<(String, usize)>)
        ensures
            forall|i: int|
                0 <= i < r@.len() ==> self@.contains_key(r@[i].0@) && self@[r@[i].0@] == r@[i].1,
            forall|i: int, j: int| 0 <= i < j < r@.len() ==> r@[i].0@ != r@[j].0@,
            forall|k: Seq<char>|
                self@.contains_key(k) ==> exists|i: int| 0 <= i < r@.len() && r@[i].0@ == k,
    {
        self.inner.iter().map(|p| (p.0.clone(), *p.1)).collect()
    }
}

/// A map from unrecognized material-parameter keywords to their raw
/// values.
#[derive(Debug)]
pub struct ParamMap {
    pub inner: ahash::AHashMap<String, String>,
}

impl Clone for ParamMap {
    /// Relies on `ahash::AHashMap::clone`: the copy holds the same
    /// entries.
    #[verifier::external_body]
    fn clone(&self) -> (r: Self)
        ensures
            r@ == self@,
    {
        ParamMap { inner: self.inner.clone() }
    }
}

/// What a [`ParamMap`]'s inner hash map holds, keys and values as their
/// character sequences.
pub uninterp spec fn param_map_view(m: ahash::AHashMap<String, String>) -> Map<Seq<char>, Seq<char>>;

impl View for ParamMap {
    type V = Map<Seq<char>, Seq<char>>;

    open spec fn view(&self) -> Map<Seq<char>, Seq<char>> {
        param_map_view(self.inner)
    }
}

impl ParamMap {
    /// Relies on `ahash::AHashMap::new`: the new map is empty.
    #[verifier::external_body]
    pub fn new() -> (r: ParamMap)
        ensures
            r@.dom() =~= Set::<Seq<char>>::empty(),
    {
        ParamMap { inner: ahash::AHashMap::new() }
    }

    /// Relies on `ahash::AHashMap::get`, with `String` keys compared by
    /// their text: the value stored under the key, if any.
    #[verifier::external_body]
    pub fn get(&self, k: &String) -> (r: Option<String>)
        ensures
            r matches Some(v) ==> self@.contains_key(k@) && v@ == self@[k@],
            r is None ==> !self@.contains_key(k@),
    {
        self.inner.get(k).cloned()
    }

    /// Relies on `ahash::AHashMap::insert`, with `String` keys compared
    /// by their text: maps the key to the value, leaving the rest
    /// unchanged.
    #[verifier::external_body]
    pub fn insert(&mut self, k: String, v: String)
        ensures
            param_map_view(final(self).inner) == param_map_view(old(self).inner).insert(k@, v@),
            final(self)@ == old(self)@.insert(k@, v@),
    {
        self.inner.insert(k, v);
    }

    /// Relies on `ahash::AHashMap::len`: the number of stored keys.
    #[verifier::external_body]
    pub fn len(&self) -> (r: usize)
        requires
            self@.dom().finite(),
        ensures
            r == self@.len(),
    {
        self.inner.len()
    }
}

} // verus!
