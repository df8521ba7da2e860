//! Static world geometry.
//!
//! A [`Collider`] is an axis-aligned rectangle in world coordinates, used for
//! movement and collision resolution. The world's collider set (ground plane
//! plus two side walls) is fixed at construction time and never mutated
//! during play. Coordinates are fixed-point integers in hundredths of a
//! world unit.
use vstd::prelude::*;

verus! {

/// An immutable axis-aligned rectangle: position of the top-left corner and
/// extent, all in hundredths of a world unit.
#[derive(Clone, Copy, PartialEq, Eq, Structural, Debug)]
pub struct Collider {
    pub x: i64,
    pub y: i64,
    pub w: i64,
    pub h: i64,
}

/// The fixed collider set of the level: the ground plane and the two side
/// walls that keep entities inside the 426-unit-wide strip.
pub open spec fn world_colliders() -> Seq<Collider> {
    seq![
        Collider { x: 0, y: 10100, w: 42600, h: 1600 },
        Collider { x: -1600i64, y: 0, w: 1600, h: 11200 },
        Collider { x: 42600, y: 0, w: 1600, h: 11200 },
    ]
}

/// Builds the level's collider set: ground, left border, right border.
pub fn make_world_colliders() -> (r: Vec<Collider>)
    ensures
        r@ == world_colliders(),
{
    let mut v: Vec<Collider> = Vec::new();
    v.push(Collider { x: 0, y: 10100, w: 42600, h: 1600 });
    v.push(Collider { x: -1600i64, y: 0, w: 1600, h: 11200 });
    v.push(Collider { x: 42600, y: 0, w: 1600, h: 11200 });
    proof {
        assert(v@ =~= world_colliders());
    }
    v
}

} // verus!
