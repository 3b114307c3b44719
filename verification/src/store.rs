//! The registry itself: a map from identifiers to service definitions that
//! only ever grows, and that hands out the smallest unused identifier.
//!
//! The model of a registry is a `Map<int, SrvView>`. The functions of the
//! model say which identifier the next definition gets and what the map is
//! afterwards; the executable functions are specified against them.

use crate::record::{NewSrv, Srv, SrvView};
use std::collections::HashMap;
use vstd::prelude::*;
use vstd::set_lib::{lemma_int_range, set_int_range};

verus! {

broadcast use vstd::std_specs::hash::group_hash_axioms;

/// `k` is the smallest non-negative integer that is not a key of `m`.
pub open spec fn is_smallest_free(m: Map<int, SrvView>, k: int) -> bool {
    &&& 0 <= k
    &&& !m.contains_key(k)
    &&& forall|j: int| 0 <= j < k ==> m.contains_key(j)
}

/// The identifier that the next definition stored in `m` gets: the smallest
/// non-negative integer that is not a key of `m`. Such an integer exists
/// whenever some non-negative integer is not a key, so in every finite map
/// (see `lemma_free_id_is_smallest_free`).
pub open spec fn free_id(m: Map<int, SrvView>) -> int {
    choose|k: int| is_smallest_free(m, k)
}

/// `m` after `data` has been stored in it under the next identifier.
pub open spec fn stored(m: Map<int, SrvView>, data: SrvView) -> Map<int, SrvView> {
    m.insert(free_id(m), data)
}

/// What a lookup of `id` in `m` gives.
pub open spec fn lookup(m: Map<int, SrvView>, id: int) -> Option<SrvView> {
    if m.contains_key(id) {
        Some(m[id])
    } else {
        None
    }
}

/// The next identifier of `m` is one that an `i32` can hold.
pub open spec fn has_room(m: Map<int, SrvView>) -> bool {
    free_id(m) <= i32::MAX
}

/// The first of the two definitions that every new registry holds.
pub open spec fn seed_routing() -> SrvView {
    SrvView { name: "Traffic Routing"@, desc: "Mongo... sorry."@ }
}

/// The second of the two definitions that every new registry holds.
pub open spec fn seed_main() -> SrvView {
    SrvView { name: "Main"@, desc: "Here be dragons."@ }
}

/// The content of a new registry: two definitions, under 0 and 1.
pub open spec fn seed() -> Map<int, SrvView> {
    Map::<int, SrvView>::empty().insert(0, seed_routing()).insert(1, seed_main())
}

/// Two integers that are both the smallest free one of `m` are equal.
pub proof fn lemma_smallest_free_unique(m: Map<int, SrvView>, a: int, b: int)
    requires
        is_smallest_free(m, a),
        is_smallest_free(m, b),
    ensures
        a == b,
{
    if a < b {
        assert(m.contains_key(a));
    } else if b < a {
        assert(m.contains_key(b));
    }
}

/// Searching upwards from `k`, below which every identifier is taken, ends
/// at the smallest free identifier no later than at the free one `bound`.
proof fn lemma_search_finds_smallest_free(m: Map<int, SrvView>, k: int, bound: int) -> (found: int)
    requires
        0 <= k <= bound,
        !m.contains_key(bound),
        forall|j: int| 0 <= j < k ==> m.contains_key(j),
    ensures
        is_smallest_free(m, found),
        k <= found <= bound,
    decreases bound - k,
{
    if m.contains_key(k) {
        lemma_search_finds_smallest_free(m, k + 1, bound)
    } else {
        k
    }
}

/// Where some non-negative integer is not a key of `m`, `free_id(m)` is the
/// smallest such integer.
pub proof fn lemma_free_id_is_smallest_free(m: Map<int, SrvView>, unused: int)
    requires
        0 <= unused,
        !m.contains_key(unused),
    ensures
        is_smallest_free(m, free_id(m)),
        free_id(m) <= unused,
{
    let found = lemma_search_finds_smallest_free(m, 0, unused);
    lemma_smallest_free_unique(m, found, free_id(m));
}

/// The keys of `m` are the integers from 0 up to, and without, the number of
/// its entries.
pub open spec fn gap_free(m: Map<int, SrvView>) -> bool {
    &&& m.dom().finite()
    &&& forall|k: int| m.contains_key(k) <==> 0 <= k < m.len()
}

/// In a registry without gaps the next identifier is the number of entries.
pub proof fn lemma_gap_free_next_id(m: Map<int, SrvView>)
    requires
        gap_free(m),
    ensures
        free_id(m) == m.len(),
{
    let n = m.len() as int;
    assert(is_smallest_free(m, n));
    lemma_free_id_is_smallest_free(m, n);
    lemma_smallest_free_unique(m, n, free_id(m));
}

/// A new registry has no gaps, and its next identifier is 2.
pub proof fn lemma_seed_free_id()
    ensures
        seed().dom() =~= set![0int, 1int],
        gap_free(seed()),
        free_id(seed()) == 2,
{
    assert(seed().dom() =~= set![0int, 1int]);
    lemma_gap_free_next_id(seed());
}

/// The registry of service definitions.
///
/// Its identifiers are the integers from 0 up to, and without, the number
/// of definitions it holds: a definition is never removed, and a new one
/// gets the smallest unused identifier.
pub struct Database {
    map: HashMap<i32, Srv>,
}

impl View for Database {
    type V = Map<int, SrvView>;

    closed spec fn view(&self) -> Map<int, SrvView> {
        Map::new(
            |k: int| i32::MIN <= k <= i32::MAX && self.map@.contains_key(k as i32),
            |k: int| self.map@[k as i32]@,
        )
    }
}

impl Database {
    /// What holds of every registry: the keys of the map that it keeps are
    /// the integers from 0 up to, and without, the number of its entries.
    #[verifier::type_invariant]
    pub closed spec fn well_formed(self) -> bool {
        &&& self.map@.len() <= 0x8000_0000
        &&& forall|k: i32| self.map@.contains_key(k) <==> 0 <= k < self.map@.len()
    }

    /// The model of a registry has no gaps, and every identifier in it is
    /// one that an `i32` can hold.
    pub proof fn lemma_well_formed_is_gap_free(self)
        requires
            self.well_formed(),
        ensures
            gap_free(self@),
            self@.len() <= 0x8000_0000,
    {
        let n = self.map@.len() as int;
        assert forall|k: int| self@.contains_key(k) <==> 0 <= k < n by {
            if i32::MIN <= k <= i32::MAX {
                assert(self.map@.contains_key(k as i32) <==> 0 <= k < n);
            }
        }
        assert(self@.dom() =~= set_int_range(0, n));
        lemma_int_range(0, n);
    }

    /// The next identifier is the number of entries of the map that the
    /// registry keeps.
    proof fn lemma_free_id_is_len(self)
        requires
            self.well_formed(),
        ensures
            is_smallest_free(self@, self.map@.len() as int),
            free_id(self@) == self.map@.len(),
    {
        let n = self.map@.len() as int;
        self.lemma_well_formed_is_gap_free();
        assert(self@.dom() =~= set_int_range(0, n));
        lemma_int_range(0, n);
        lemma_gap_free_next_id(self@);
    }

    /// A registry that holds the two seed definitions, under 0 and 1.
    pub fn new() -> (db: Self)
        ensures
            db@ == seed(),
    {
        let mut inner: HashMap<i32, Srv> = HashMap::new();
        inner.insert(
            0,
            Srv { name: "Traffic Routing".to_owned(), desc: "Mongo... sorry.".to_owned() },
        );
        inner.insert(1, Srv { name: "Main".to_owned(), desc: "Here be dragons.".to_owned() });
        proof {
            assert(inner@.dom() =~= set![0i32, 1i32]);
            assert(inner@.len() == 2);
        }
        let db = Database { map: inner };
        assert(db@ =~= seed());
        db
    }

    /// A copy of the definition stored under `id`, if there is one.
    pub fn get(&self, id: i32) -> (found: Option<Srv>)
        ensures
            match found {
                Some(srv) => lookup(self@, id as int) == Some(srv@),
                None => lookup(self@, id as int) is None,
            },
    {
        match self.map.get(&id) {
            Some(srv) => Some(srv.clone()),
            None => None,
        }
    }

    /// Whether one more definition can be stored: whether the next
    /// identifier is one that an `i32` can hold.
    pub fn has_room(&self) -> (room: bool)
        ensures
            room == has_room(self@),
    {
        proof {
            use_type_invariant(self);
            self.lemma_free_id_is_len();
        }
        !self.map.contains_key(&i32::MAX)
    }

    /// Stores a definition made from `data` under the smallest unused
    /// identifier, found by searching upwards from 0, and returns a copy of
    /// what was stored. Everything else in the registry stays as it was.
    pub fn add(&mut self, data: &NewSrv) -> (srv: Srv)
        requires
            has_room(old(self)@),
        ensures
            final(self)@ == stored(old(self)@, data@),
            srv@ == data@,
    {
        proof {
            use_type_invariant(&*self);
            self.lemma_free_id_is_len();
        }
        let mut k: i32 = 0;
        while self.map.contains_key(&k)
            invariant
                0 <= k <= free_id(self@) <= i32::MAX,
                is_smallest_free(self@, free_id(self@)),
                *self == *old(self),
            decreases free_id(self@) - k,
        {
            assert(self@.contains_key(k as int));
            k += 1;
        }
        assert(k == free_id(self@)) by {
            assert(!self@.contains_key(k as int));
        }
        let srv = data.to_srv();
        let copy = srv.clone();
        // The map is taken out while it grows, so that the registry is
        // without gaps at every moment.
        let mut inner: HashMap<i32, Srv> = HashMap::new();
        std::mem::swap(&mut self.map, &mut inner);
        let ghost before = inner@;
        inner.insert(k, srv);
        proof {
            assert(k == before.len());
            assert(inner@.dom() =~= before.dom().insert(k));
        }
        std::mem::swap(&mut self.map, &mut inner);
        assert(self@ =~= stored(old(self)@, data@));
        copy
    }
}

} // verus!
