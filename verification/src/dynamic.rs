//! Runtime checks for dynamic senders.
//!
//! A dynamic sender only knows at runtime which messages the protocol behind it accepts: it
//! holds the list of their type identifiers. These functions decide whether a message, or every
//! message of a set, is among them.
use crate::type_sets::type_ids_equal;
use std::any::TypeId;
use vstd::prelude::*;

pub mod accept;
pub mod from_into;
pub mod into_dyn;

verus! {

/// Every identifier in `required` is one of the identifiers in `accepted`.
pub open spec fn covers(accepted: Seq<TypeId>, required: Seq<TypeId>) -> bool {
    forall|k: int| 0 <= k < required.len() ==> accepted.contains(#[trigger] required[k])
}

/// A list of accepted messages covers itself: transforming a dynamic sender into one that
/// accepts the same messages always succeeds.
pub proof fn lemma_covers_reflexive(accepted: Seq<TypeId>)
    ensures
        covers(accepted, accepted),
{
    assert forall|k: int| 0 <= k < accepted.len() implies accepted.contains(
        #[trigger] accepted[k],
    ) by {
        assert(accepted[k] == accepted[k]);
    }
}

/// Covering is transitive: a sender that was transformed into one accepting a subset of its
/// messages, and then into a subset of that, still accepts every message of the last set.
pub proof fn lemma_covers_transitive(a: Seq<TypeId>, b: Seq<TypeId>, c: Seq<TypeId>)
    requires
        covers(a, b),
        covers(b, c),
    ensures
        covers(a, c),
{
    assert forall|k: int| 0 <= k < c.len() implies a.contains(#[trigger] c[k]) by {
        assert(b.contains(c[k]));
        let j = choose|j: int| 0 <= j < b.len() && b[j] == c[k];
        assert(a.contains(b[j]));
    }
}

/// The order of the required identifiers, and repeating one, does not matter: only which
/// identifiers are required does.
pub proof fn lemma_covers_depends_on_members(
    accepted: Seq<TypeId>,
    required: Seq<TypeId>,
    other: Seq<TypeId>,
)
    requires
        required.to_set() == other.to_set(),
    ensures
        covers(accepted, required) == covers(accepted, other),
{
    if covers(accepted, required) {
        assert forall|k: int| 0 <= k < other.len() implies accepted.contains(
            #[trigger] other[k],
        ) by {
            assert(other.to_set().contains(other[k]));
            assert(required.to_set().contains(other[k]));
            let j = choose|j: int| 0 <= j < required.len() && required[j] == other[k];
            assert(accepted.contains(required[j]));
        }
    }
    if covers(accepted, other) {
        assert forall|k: int| 0 <= k < required.len() implies accepted.contains(
            #[trigger] required[k],
        ) by {
            assert(required.to_set().contains(required[k]));
            assert(other.to_set().contains(required[k]));
            let j = choose|j: int| 0 <= j < other.len() && other[j] == required[k];
            assert(accepted.contains(other[j]));
        }
    }
}

/// Whether `id` is one of the identifiers in `accepted`.
pub fn accepts_type(accepted: &[TypeId], id: &TypeId) -> (r: bool)
    ensures
        r == accepted@.contains(*id),
{
    let mut i: usize = 0;
    while i < accepted.len()
        invariant
            i <= accepted@.len(),
            forall|j: int| 0 <= j < i ==> accepted@[j] != *id,
        decreases accepted@.len() - i,
    {
        if type_ids_equal(&accepted[i], id) {
            return true;
        }
        i = i + 1;
    }
    false
}

/// The subset check answers exactly whether every identifier that `required` names occurs in
/// `accepted`.
pub proof fn law_accepts_all_types_is_subset(accepted: &[TypeId], required: &[TypeId], r: bool)
    requires
        call_ensures(accepts_all_types, (accepted, required), r),
    ensures
        r <==> forall|k: int| 0 <= k < required@.len() ==> accepted@.contains(#[trigger] required@[k]),
        !r <==> exists|k: int| 0 <= k < required@.len() && !accepted@.contains(#[trigger] required@[k]),
{
}

/// The membership check answers exactly whether `id` occurs in `accepted`.
pub proof fn law_accepts_type_is_membership(accepted: &[TypeId], id: &TypeId, r: bool)
    requires
        call_ensures(accepts_type, (accepted, id), r),
    ensures
        r <==> exists|k: int| 0 <= k < accepted@.len() && accepted@[k] == *id,
{
}

/// Whether every identifier in `required` is one of the identifiers in `accepted`.
pub fn accepts_all_types(accepted: &[TypeId], required: &[TypeId]) -> (r: bool)
    ensures
        r == covers(accepted@, required@),
{
    let mut k: usize = 0;
    while k < required.len()
        invariant
            k <= required@.len(),
            forall|j: int| 0 <= j < k ==> accepted@.contains(#[trigger] required@[j]),
        decreases required@.len() - k,
    {
        if !accepts_type(accepted, &required[k]) {
            return false;
        }
        k = k + 1;
    }
    true
}

} // verus!
