//! Collision categories of the entities the controls interact with.

use vstd::prelude::*;

verus! {

/// The collision categories an entity can belong to.
///
/// Each category occupies one bit of a 32-bit membership mask, in
/// declaration order.
#[derive(Clone, Copy, Debug, PartialEq, Eq, Structural)]
pub enum EntityCollisionLayers {
    /// Walkable terrain; a drag rectangle is anchored on it.
    Ground,
    /// The selection volume itself.
    Interaction,
    /// Entities that can be picked by a click.
    Selectable,
}

impl EntityCollisionLayers {
    /// The membership bit of this category.
    pub open spec fn bits(self) -> u32 {
        match self {
            EntityCollisionLayers::Ground => 1u32,
            EntityCollisionLayers::Interaction => 2u32,
            EntityCollisionLayers::Selectable => 4u32,
        }
    }

    /// Converts the category to its bitmask.
    pub fn to_bits(&self) -> (bits: u32)
        ensures
            bits == self.bits(),
    {
        match self {
            EntityCollisionLayers::Ground => 1,
            EntityCollisionLayers::Interaction => 2,
            EntityCollisionLayers::Selectable => 4,
        }
    }
}

/// Whether a membership mask includes every bit of `layer`.
pub open spec fn is_member(memberships: u32, layer: u32) -> bool {
    memberships & layer == layer
}

/// Tests whether an entity with the given membership mask belongs to `layer`.
pub fn belongs_to(memberships: u32, layer: EntityCollisionLayers) -> (member: bool)
    ensures
        member == is_member(memberships, layer.bits()),
{
    memberships & layer.to_bits() == layer.to_bits()
}

} // verus!
