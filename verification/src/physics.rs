//! What the physics engine reports each tick, as plain values.

use crate::math::Scalar;
use vstd::prelude::*;

verus! {

/// A stable identifier of a body or sensor.
pub type Entity = u64;

/// A point or a displacement in the plane.
#[derive(Clone, Copy, Debug, PartialEq, Eq, Structural)]
pub struct Vec2 {
    pub x: Scalar,
    pub y: Scalar,
}

/// A box by its half extents: the shape of a collider that is one.
#[derive(Clone, Copy, Debug, PartialEq, Eq, Structural)]
pub struct Cuboid {
    pub half_extents: Vec2,
}

/// A box by its full lengths: the shape that a collider is made with.
#[derive(Clone, Copy, Debug, PartialEq, Eq, Structural)]
pub struct Rectangle {
    pub x_length: Scalar,
    pub y_length: Scalar,
}

/// A direction along one of the axes.
#[derive(Clone, Copy, Debug, PartialEq, Eq, Structural)]
pub enum Dir2 {
    X,
    NegX,
    Y,
    NegY,
}

/// A set of collision layers.
#[derive(Clone, Copy, Debug, PartialEq, Eq, Structural)]
pub struct LayerMask {
    pub player_collider: bool,
    pub terrain: bool,
    pub platform: bool,
}

/// A probe that casts a shape from an origin on its body along a direction
/// and reports what it hits on the layers of its mask.
#[derive(Clone, Copy, Debug, PartialEq, Eq, Structural)]
pub struct ShapeCaster {
    pub shape: Rectangle,
    pub origin: Vec2,
    pub direction: Dir2,
    pub max_distance: Scalar,
    pub max_hits: u32,
    pub mask: LayerMask,
}

/// The velocity of a body along both axes.
#[derive(Clone, Copy, Debug, PartialEq, Eq, Structural)]
pub struct LinearVelocity {
    pub x: Scalar,
    pub y: Scalar,
}

/// Two colliders began to overlap.
#[derive(Clone, Copy, Debug, PartialEq, Eq, Structural)]
pub struct CollisionStart {
    pub collider1: Entity,
    pub collider2: Entity,
}

/// Two colliders ceased to overlap.
#[derive(Clone, Copy, Debug, PartialEq, Eq, Structural)]
pub struct CollisionEnd {
    pub collider1: Entity,
    pub collider2: Entity,
}

/// The hits of one shape cast this tick, each by its distance from the
/// cast's origin.
#[derive(Clone, Debug)]
pub struct ShapeHits {
    pub distances: Vec<Scalar>,
}

/// Whether some distance of `hits` lies below `clearance`.
pub open spec fn closer_than(hits: Seq<Scalar>, clearance: int) -> bool {
    exists|i: int| 0 <= i < hits.len() && hits[i] < clearance
}

impl View for ShapeHits {
    type V = Seq<Scalar>;

    open spec fn view(&self) -> Seq<Scalar> {
        self.distances@
    }
}

impl ShapeHits {
    /// Whether the cast hit anything.
    pub fn any_hit(&self) -> (hit: bool)
        ensures
            hit == (self@.len() > 0),
    {
        self.distances.len() > 0
    }

    /// Whether the cast hit anything nearer than `clearance`.
    pub fn closer_than(&self, clearance: Scalar) -> (near: bool)
        ensures
            near == closer_than(self@, clearance as int),
    {
        let mut i: usize = 0;
        while i < self.distances.len()
            invariant
                i <= self.distances.len(),
                forall|j: int| 0 <= j < i ==> self.distances@[j] >= clearance,
            decreases self.distances.len() - i,
        {
            if self.distances[i] < clearance {
                return true;
            }
            i += 1;
        }
        false
    }
}

} // verus!
