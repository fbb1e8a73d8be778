//! What the entities and cells of a level collide as.

use crate::math::Scalar;
use crate::physics::Rectangle;
use vstd::prelude::*;
use vstd::std_specs::convert::FromSpecImpl;

verus! {

/// An entity as the level editor placed it.
#[derive(Clone, Debug)]
pub struct EntityInstance {
    pub identifier: String,
}

/// A cell of a level's integer grid.
#[derive(Clone, Copy, Debug, PartialEq, Eq, Structural)]
pub struct IntGridCell {
    pub value: i32,
}

/// The grid value of a ladder cell.
pub const LADDER: i32 = 2;

/// How a body takes part in the simulation.
#[derive(Clone, Copy, Debug, PartialEq, Eq, Structural)]
pub enum RigidBody {
    Dynamic,
    Static,
    Kinematic,
}

/// How a body rubs against others.
#[derive(Clone, Copy, Debug, PartialEq, Eq, Structural)]
pub enum Friction {
    /// As the physics engine has it by default.
    Unset,
    /// Not at all, whatever it touches.
    Frictionless,
    /// With this coefficient, at rest and in motion.
    Uniform(Scalar),
}

/// What an entity collides as. A part that is `None` is left as the physics
/// engine has it by default.
#[derive(Clone, Copy, Debug, PartialEq, Eq, Structural)]
pub struct ColliderBundle {
    pub collider: Option<Rectangle>,
    pub rigid_body: Option<RigidBody>,
    pub rotation_locked: bool,
    pub gravity_scale: Option<Scalar>,
    pub friction: Friction,
    pub density: Option<Scalar>,
}

/// What a cell senses as. A collider that is `None` is left as the physics
/// engine has it by default.
#[derive(Clone, Copy, Debug, PartialEq, Eq, Structural)]
pub struct SensorBundle {
    pub collider: Option<Rectangle>,
    pub rotation_locked: bool,
}

impl Default for ColliderBundle {
    fn default() -> (bundle: ColliderBundle)
        ensures
            bundle == unset(),
    {
        ColliderBundle {
            collider: None,
            rigid_body: None,
            rotation_locked: false,
            gravity_scale: None,
            friction: Friction::Unset,
            density: None,
        }
    }
}

impl Default for SensorBundle {
    fn default() -> (bundle: SensorBundle)
        ensures
            bundle == (SensorBundle { collider: None, rotation_locked: false }),
    {
        SensorBundle { collider: None, rotation_locked: false }
    }
}

/// The bundle that leaves every part to the physics engine.
pub open spec fn unset() -> ColliderBundle {
    ColliderBundle {
        collider: None,
        rigid_body: None,
        rotation_locked: false,
        gravity_scale: None,
        friction: Friction::Unset,
        density: None,
    }
}

/// A box that cannot turn.
pub open spec fn upright(x_length: Scalar, y_length: Scalar, rigid_body: RigidBody) -> ColliderBundle {
    ColliderBundle {
        collider: Some(Rectangle { x_length, y_length }),
        rigid_body: Some(rigid_body),
        rotation_locked: true,
        ..unset()
    }
}

impl From<&EntityInstance> for ColliderBundle {
    /// The bundle of an entity, by its identifier: a player is a dynamic box
    /// without friction, a mob a kinematic box, a chest a heavy dynamic box
    /// that rubs; none of them turns. Any other entity is left to the physics
    /// engine.
    fn from(entity_instance: &EntityInstance) -> (bundle: ColliderBundle) {
        if entity_instance.identifier == "Player".to_owned() {
            ColliderBundle {
                collider: Some(Rectangle { x_length: 12_000, y_length: 28_000 }),
                rigid_body: Some(RigidBody::Dynamic),
                rotation_locked: true,
                gravity_scale: None,
                friction: Friction::Frictionless,
                density: None,
            }
        } else if entity_instance.identifier == "Mob".to_owned() {
            ColliderBundle {
                collider: Some(Rectangle { x_length: 10_000, y_length: 10_000 }),
                rigid_body: Some(RigidBody::Kinematic),
                rotation_locked: true,
                gravity_scale: None,
                friction: Friction::Unset,
                density: None,
            }
        } else if entity_instance.identifier == "Chest".to_owned() {
            ColliderBundle {
                collider: Some(Rectangle { x_length: 16_000, y_length: 16_000 }),
                rigid_body: Some(RigidBody::Dynamic),
                rotation_locked: true,
                gravity_scale: Some(1_000),
                friction: Friction::Uniform(500),
                density: Some(15_000),
            }
        } else {
            ColliderBundle::default()
        }
    }
}

impl FromSpecImpl<&EntityInstance> for ColliderBundle {
    open spec fn obeys_from_spec() -> bool {
        true
    }

    open spec fn from_spec(entity_instance: &EntityInstance) -> ColliderBundle {
        if entity_instance.identifier@ == "Player"@ {
            ColliderBundle {
                friction: Friction::Frictionless,
                ..upright(12_000, 28_000, RigidBody::Dynamic)
            }
        } else if entity_instance.identifier@ == "Mob"@ {
            upright(10_000, 10_000, RigidBody::Kinematic)
        } else if entity_instance.identifier@ == "Chest"@ {
            ColliderBundle {
                gravity_scale: Some(1_000),
                friction: Friction::Uniform(500),
                density: Some(15_000),
                ..upright(16_000, 16_000, RigidBody::Dynamic)
            }
        } else {
            unset()
        }
    }
}

impl From<IntGridCell> for SensorBundle {
    /// The bundle of a grid cell: a ladder cell senses as a box of one tile
    /// that cannot turn; any other cell is left to the physics engine.
    fn from(int_grid_cell: IntGridCell) -> (bundle: SensorBundle) {
        if int_grid_cell.value == LADDER {
            SensorBundle {
                collider: Some(Rectangle { x_length: 16_000, y_length: 16_000 }),
                rotation_locked: true,
            }
        } else {
            SensorBundle::default()
        }
    }
}

impl FromSpecImpl<IntGridCell> for SensorBundle {
    open spec fn obeys_from_spec() -> bool {
        true
    }

    open spec fn from_spec(int_grid_cell: IntGridCell) -> SensorBundle {
        if int_grid_cell.value == LADDER {
            SensorBundle {
                collider: Some(Rectangle { x_length: 16_000, y_length: 16_000 }),
                rotation_locked: true,
            }
        } else {
            SensorBundle { collider: None, rotation_locked: false }
        }
    }
}

} // verus!
