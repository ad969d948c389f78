//! The physics engine's report of what touches the selection volume.

use avian3d::collision::CollidingEntities;
use vstd::prelude::*;

verus! {

/// The physics engine's component listing the entities in contact with one
/// collider. Its contents are only reachable through the items below.
#[verifier::external_type_specification]
#[verifier::external_body]
pub struct ExCollidingEntities(CollidingEntities);

/// The entities that a contact report holds, each given by the 64-bit value
/// of its handle.
pub uninterp spec fn colliding_ids(report: CollidingEntities) -> Set<u64>;

/// Lists the entities of a contact report, each exactly once.
///
/// Trusted: calls `HashSet::iter` on the entity set that `CollidingEntities`
/// holds and `Entity::to_bits` on each handle it yields. Two handles are
/// equal exactly if their 64-bit values are, so no value comes twice. The
/// order of the walk is whatever the hash table gives; nothing is claimed of
/// it.
#[verifier::external_body]
pub(crate) fn report_ids(report: &CollidingEntities) -> (ids: Vec<u64>)
    ensures
        ids@.no_duplicates(),
        ids@.to_set() == colliding_ids(*report),
{
    let mut ids = Vec::new();
    for entity in report.0.iter() {
        ids.push(entity.to_bits());
    }
    ids
}

} // verus!
