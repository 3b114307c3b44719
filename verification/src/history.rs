//! What holds of a registry over a sequence of additions.
//!
//! `Database::add` turns the model `m` of a registry into `stored(m, data)`.
//! This module follows a registry through several such steps and proves which
//! identifiers the additions get.

use crate::record::SrvView;
use crate::store::{
    free_id, gap_free, is_smallest_free, lemma_free_id_is_smallest_free, lemma_gap_free_next_id,
    lemma_seed_free_id, lookup, seed, stored,
};
use vstd::prelude::*;
use vstd::set_lib::{lemma_int_range, lemma_len_subset, set_int_range};

verus! {

/// The registry `m` after the first `n` of `inputs` have been stored in it,
/// one after the other.
pub open spec fn after(m: Map<int, SrvView>, inputs: Seq<SrvView>, n: nat) -> Map<int, SrvView>
    decreases n,
{
    if n == 0 {
        m
    } else {
        stored(after(m, inputs, (n - 1) as nat), inputs[n - 1])
    }
}

/// The identifier under which the addition with index `i` stores its input,
/// when `inputs` are stored in `m` one after the other.
pub open spec fn id_of(m: Map<int, SrvView>, inputs: Seq<SrvView>, i: nat) -> int {
    free_id(after(m, inputs, i))
}

/// A finite registry has an unused identifier among 0, .., its size, so its
/// next identifier is the smallest unused one and at most its size.
pub proof fn lemma_finite_has_free_id(m: Map<int, SrvView>)
    requires
        m.dom().finite(),
    ensures
        is_smallest_free(m, free_id(m)),
        free_id(m) <= m.len(),
{
    let n = m.len() as int;
    if forall|k: int| 0 <= k <= n ==> m.contains_key(k) {
        lemma_int_range(0, n + 1);
        assert(set_int_range(0, n + 1).subset_of(m.dom()));
        lemma_len_subset(set_int_range(0, n + 1), m.dom());
        assert(false);
    }
    let unused = choose|k: int| 0 <= k <= n && !m.contains_key(k);
    lemma_free_id_is_smallest_free(m, unused);
}

/// Storing keeps a registry finite.
pub proof fn lemma_after_is_finite(m: Map<int, SrvView>, inputs: Seq<SrvView>, n: nat)
    requires
        m.dom().finite(),
    ensures
        after(m, inputs, n).dom().finite(),
    decreases n,
{
    if n > 0 {
        lemma_after_is_finite(m, inputs, (n - 1) as nat);
    }
}

/// A definition, once stored, stays: what is in the registry after `i`
/// additions is in it, unchanged, after `j >= i` additions.
pub proof fn lemma_after_keeps_entries(
    m: Map<int, SrvView>,
    inputs: Seq<SrvView>,
    i: nat,
    j: nat,
    id: int,
)
    requires
        m.dom().finite(),
        i <= j,
        after(m, inputs, i).contains_key(id),
    ensures
        after(m, inputs, j).contains_key(id),
        after(m, inputs, j)[id] == after(m, inputs, i)[id],
    decreases j - i,
{
    if i < j {
        let previous = (j - 1) as nat;
        lemma_after_keeps_entries(m, inputs, i, previous, id);
        lemma_after_is_finite(m, inputs, previous);
        lemma_finite_has_free_id(after(m, inputs, previous));
    }
}

/// Round trip: a lookup of the identifier that an addition used gives what
/// was added, and every other lookup gives what it gave before. The
/// identifier was unused before, where the registry is finite.
pub proof fn law_stored_is_found(m: Map<int, SrvView>, data: SrvView, other: int)
    ensures
        lookup(stored(m, data), free_id(m)) == Some(data),
        other != free_id(m) ==> lookup(stored(m, data), other) == lookup(m, other),
        m.dom().finite() ==> lookup(m, free_id(m)) is None,
{
    if m.dom().finite() {
        lemma_finite_has_free_id(m);
    }
}

/// Each of a sequence of additions to a finite registry gets the smallest
/// non-negative identifier that is unused when it is made, and stores its
/// input under it.
pub proof fn law_each_id_is_smallest_free(m: Map<int, SrvView>, inputs: Seq<SrvView>, i: nat)
    requires
        m.dom().finite(),
        i < inputs.len(),
    ensures
        is_smallest_free(after(m, inputs, i), id_of(m, inputs, i)),
        lookup(after(m, inputs, i + 1), id_of(m, inputs, i)) == Some(inputs[i as int]),
{
    lemma_after_is_finite(m, inputs, i);
    lemma_finite_has_free_id(after(m, inputs, i));
}

/// Two different additions of a sequence get different identifiers, and
/// what the earlier one stored is still found after the later one.
pub proof fn law_ids_are_distinct(m: Map<int, SrvView>, inputs: Seq<SrvView>, i: nat, j: nat)
    requires
        m.dom().finite(),
        i < j < inputs.len(),
    ensures
        id_of(m, inputs, i) != id_of(m, inputs, j),
        lookup(after(m, inputs, j + 1), id_of(m, inputs, i)) == Some(inputs[i as int]),
{
    let id = id_of(m, inputs, i);
    law_each_id_is_smallest_free(m, inputs, i);
    lemma_after_keeps_entries(m, inputs, i + 1, j, id);
    law_each_id_is_smallest_free(m, inputs, j);
    lemma_after_keeps_entries(m, inputs, i + 1, j + 1, id);
}

/// Storing in a registry without gaps leaves a registry without gaps that
/// has one entry more.
pub proof fn lemma_gap_free_stored(m: Map<int, SrvView>, data: SrvView)
    requires
        gap_free(m),
    ensures
        gap_free(stored(m, data)),
        stored(m, data).len() == m.len() + 1,
{
    lemma_gap_free_next_id(m);
    assert(stored(m, data).dom() =~= m.dom().insert(m.len() as int));
}

/// Additions to a registry without gaps get consecutive identifiers,
/// starting at the number of entries that it had.
pub proof fn law_ids_are_consecutive(m: Map<int, SrvView>, inputs: Seq<SrvView>, i: nat)
    requires
        gap_free(m),
    ensures
        gap_free(after(m, inputs, i)),
        after(m, inputs, i).len() == m.len() + i,
        id_of(m, inputs, i) == m.len() + i,
    decreases i,
{
    if i > 0 {
        let previous = (i - 1) as nat;
        law_ids_are_consecutive(m, inputs, previous);
        lemma_gap_free_stored(after(m, inputs, previous), inputs[i - 1]);
    }
    lemma_gap_free_next_id(after(m, inputs, i));
}

/// A new registry has no gaps and two entries, so the additions to it get
/// the identifiers 2, 3, 4 and so on.
pub proof fn law_new_registry_ids(inputs: Seq<SrvView>, i: nat)
    ensures
        gap_free(seed()),
        seed().len() == 2,
        id_of(seed(), inputs, i) == 2 + i,
{
    lemma_seed_free_id();
    law_ids_are_consecutive(seed(), inputs, i);
}

} // verus!
