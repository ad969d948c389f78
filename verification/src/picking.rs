//! What the pointer ray hit this frame.
//!
//! The ray cast itself is the engine's work. Its result arrives here as a list
//! of picks ordered by depth, nearest first, and this module reads the two
//! things the controls need from it: what lies directly under the cursor, and
//! where the ray meets the ground.

use crate::entities::{is_member, belongs_to, EntityCollisionLayers};
use vstd::prelude::*;

verus! {

/// A point on the ground plane, in fixed-point world units.
#[derive(Clone, Copy, Debug, PartialEq, Eq, Structural)]
pub struct WorldPoint {
    pub x: i64,
    pub z: i64,
}

/// One entity hit by the pointer ray.
#[derive(Clone, Copy, Debug, PartialEq, Eq, Structural)]
pub struct HitData {
    /// The entity that was hit.
    pub entity: u64,
    /// Where the ray met it, projected on the ground plane, if the backend
    /// reported a position.
    pub position: Option<WorldPoint>,
    /// The entity's collision memberships, or `None` if it has no collision
    /// category at all.
    pub layers: Option<u32>,
}

impl HitData {
    /// The point at which this pick can anchor a drag: the hit is on the
    /// ground and its position is known.
    pub open spec fn ground_point(self) -> Option<WorldPoint> {
        match (self.layers, self.position) {
            (Some(layers), Some(point)) =>
                if is_member(layers, EntityCollisionLayers::Ground.bits()) {
                    Some(point)
                } else {
                    None
                },
            _ => None,
        }
    }
}

/// The picks of one frame, nearest first.
#[derive(Clone, Debug, PartialEq, Eq)]
pub struct PointerHits {
    pub picks: Vec<HitData>,
}

/// What lies directly under the cursor, judged by the nearest pick alone.
#[derive(Clone, Copy, Debug, PartialEq, Eq, Structural)]
pub enum PointerTarget {
    /// Nothing was hit, or the nearest entity has no collision category.
    Nothing,
    /// Ground, hit at a known point.
    Ground { entity: u64, point: WorldPoint },
    /// An entity of the selectable category that is not ground.
    Selectable { entity: u64 },
    /// Anything else, including ground hit at an unknown point.
    Other { entity: u64 },
}

impl PointerTarget {
    /// The entity under the cursor, if there is one.
    pub open spec fn entity(self) -> Option<u64> {
        match self {
            PointerTarget::Nothing => None,
            PointerTarget::Ground { entity, .. } => Some(entity),
            PointerTarget::Selectable { entity } => Some(entity),
            PointerTarget::Other { entity } => Some(entity),
        }
    }

    /// The entity under the cursor, if there is one.
    pub fn under_cursor(&self) -> (found: Option<u64>)
        ensures
            found == self.entity(),
    {
        match self {
            PointerTarget::Nothing => None,
            PointerTarget::Ground { entity, .. } => Some(*entity),
            PointerTarget::Selectable { entity } => Some(*entity),
            PointerTarget::Other { entity } => Some(*entity),
        }
    }
}

/// How a single pick is classified.
pub open spec fn classify_pick(pick: HitData) -> PointerTarget {
    match pick.layers {
        None => PointerTarget::Nothing,
        Some(layers) =>
            if is_member(layers, EntityCollisionLayers::Ground.bits()) {
                match pick.position {
                    Some(point) => PointerTarget::Ground { entity: pick.entity, point },
                    None => PointerTarget::Other { entity: pick.entity },
                }
            } else if is_member(layers, EntityCollisionLayers::Selectable.bits()) {
                PointerTarget::Selectable { entity: pick.entity }
            } else {
                PointerTarget::Other { entity: pick.entity }
            },
    }
}

/// The target of a depth-ordered pick list: the classification of its first
/// pick. Later picks never matter.
pub open spec fn target_of(picks: Seq<HitData>) -> PointerTarget {
    if picks.len() == 0 {
        PointerTarget::Nothing
    } else {
        classify_pick(picks[0])
    }
}

/// Where the pointer ray meets the ground: the point of the nearest pick
/// that lies on the ground at a known point, whatever stands in front of it.
pub open spec fn ground_under(picks: Seq<HitData>) -> Option<WorldPoint>
    decreases picks.len(),
{
    if picks.len() == 0 {
        None
    } else if picks[0].ground_point().is_some() {
        picks[0].ground_point()
    } else {
        ground_under(picks.drop_first())
    }
}

/// Picks that cannot anchor a drag are passed over: if none of the first
/// `skipped` picks is a ground pick, the answer is that of the rest.
pub proof fn lemma_ground_under_skips(picks: Seq<HitData>, skipped: int)
    requires
        0 <= skipped <= picks.len(),
        forall|j: int| 0 <= j < skipped ==> (#[trigger] picks[j]).ground_point().is_none(),
    ensures
        ground_under(picks) == ground_under(picks.skip(skipped)),
    decreases skipped,
{
    if skipped == 0 {
        assert(picks.skip(0) =~= picks);
    } else {
        let rest = picks.drop_first();
        assert(forall|j: int| 0 <= j < skipped - 1 ==> (#[trigger] rest[j]).ground_point().is_none());
        lemma_ground_under_skips(rest, skipped - 1);
        assert(rest.skip(skipped - 1) =~= picks.skip(skipped));
    }
}

impl PointerHits {
    /// Classifies what lies directly under the cursor.
    pub fn target(&self) -> (target: PointerTarget)
        ensures
            target == target_of(self.picks@),
    {
        if self.picks.len() == 0 {
            return PointerTarget::Nothing;
        }
        let pick = self.picks[0];
        match pick.layers {
            None => PointerTarget::Nothing,
            Some(layers) => {
                if belongs_to(layers, EntityCollisionLayers::Ground) {
                    match pick.position {
                        Some(point) => PointerTarget::Ground { entity: pick.entity, point },
                        None => PointerTarget::Other { entity: pick.entity },
                    }
                } else if belongs_to(layers, EntityCollisionLayers::Selectable) {
                    PointerTarget::Selectable { entity: pick.entity }
                } else {
                    PointerTarget::Other { entity: pick.entity }
                }
            },
        }
    }

    /// Finds where the pointer ray meets the ground.
    pub fn ground(&self) -> (point: Option<WorldPoint>)
        ensures
            point == ground_under(self.picks@),
    {
        let mut i: usize = 0;
        while i < self.picks.len()
            invariant
                i <= self.picks.len(),
                forall|j: int| 0 <= j < i ==> (#[trigger] self.picks@[j]).ground_point().is_none(),
            decreases self.picks.len() - i,
        {
            let pick = self.picks[i];
            if let (Some(layers), Some(point)) = (pick.layers, pick.position) {
                if belongs_to(layers, EntityCollisionLayers::Ground) {
                    proof {
                        lemma_ground_under_skips(self.picks@, i as int);
                    }
                    return Some(point);
                }
            }
            i += 1;
        }
        proof {
            lemma_ground_under_skips(self.picks@, i as int);
        }
        None
    }
}

} // verus!
