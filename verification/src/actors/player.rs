//! The controlled actor.

use crate::app::{in_set, App, Game, Registration, Schedule, System, Systems};
use crate::actors::player::state::MoveInfo;
use crate::math::Scalar;
use crate::physics::{Dir2, Entity, LayerMask, Rectangle, ShapeCaster, Vec2};
use rand::rngs::ThreadRng;
use rand::seq::IndexedRandom;
use vstd::prelude::*;

pub mod input;
pub mod state;
pub mod timing;

verus! {

/// One of the two sideways probes of the actor, by the side it looks to.
#[derive(Clone, Copy, Debug, PartialEq, Eq, Structural)]
pub enum WallCaster {
    Left,
    Right,
}

/// How far every probe of the actor reaches.
pub const CAST_DISTANCE: Scalar = 500;

/// How many hits every probe of the actor reports at most.
pub const CAST_HITS: u32 = 8;

/// The height at which the probe below the actor starts, against the
/// actor's centre.
pub const GROUND_ANCHOR: Scalar = -9_750;

/// How far to either side of the actor's centre the probes beside it start.
pub const WALL_ANCHOR: Scalar = 6_750;

/// The height at which the probes beside the actor start.
pub const WALL_ANCHOR_HEIGHT: Scalar = -1_750;

/// The height at which the actor's box sits, against the actor's centre.
pub const COLLIDER_HEIGHT: Scalar = -2_000;

/// The seconds between two footsteps.
pub const TIME_BETWEEN_STEPS: Scalar = 500;

/// What the actor is fitted out with when it appears.
#[derive(Clone, Debug)]
pub struct Fittings {
    /// Its counters, all at rest.
    pub info: MoveInfo,
    /// Its box, and where the box sits on it.
    pub collider: Rectangle,
    pub collider_offset: Vec2,
    /// The layers it is on, and those it collides with.
    pub memberships: LayerMask,
    pub filters: LayerMask,
    pub friction: Scalar,
    pub restitution: Scalar,
    /// The probe below it.
    pub ground_caster: ShapeCaster,
    /// The probes beside it, each with its side.
    pub wall_casters: Vec<(WallCaster, ShapeCaster)>,
    pub time_between_steps: Scalar,
}

/// The layers of the level's solid tiles.
pub open spec fn terrain() -> LayerMask {
    LayerMask { player_collider: false, terrain: true, platform: false }
}

/// The layers that carry the actor: solid tiles and platforms.
pub open spec fn footing() -> LayerMask {
    LayerMask { player_collider: false, terrain: true, platform: true }
}

/// The probe below the actor: nearly as wide as its box, cast downward from
/// its lower edge, against what carries it.
pub open spec fn ground_probe() -> ShapeCaster {
    ShapeCaster {
        shape: Rectangle { x_length: 11_800, y_length: 500 },
        origin: Vec2 { x: 0, y: GROUND_ANCHOR },
        direction: Dir2::NegY,
        max_distance: CAST_DISTANCE,
        max_hits: CAST_HITS,
        mask: footing(),
    }
}

/// The probe on one side of the actor: a thin upright box, cast outward from
/// an anchor on that side, against solid tiles alone.
pub open spec fn wall_probe(side: WallCaster) -> ShapeCaster {
    ShapeCaster {
        shape: Rectangle { x_length: 500, y_length: 10_000 },
        origin: Vec2 {
            x: match side {
                WallCaster::Left => (-WALL_ANCHOR) as Scalar,
                WallCaster::Right => WALL_ANCHOR,
            },
            y: WALL_ANCHOR_HEIGHT,
        },
        direction: match side {
            WallCaster::Left => Dir2::NegX,
            WallCaster::Right => Dir2::X,
        },
        max_distance: CAST_DISTANCE,
        max_hits: CAST_HITS,
        mask: terrain(),
    }
}

impl WallCaster {
    /// The probe of this side.
    pub fn shape_caster(self) -> (caster: ShapeCaster)
        ensures
            caster == wall_probe(self),
    {
        let (direction, anchor) = match self {
            WallCaster::Left => (Dir2::NegX, -WALL_ANCHOR),
            WallCaster::Right => (Dir2::X, WALL_ANCHOR),
        };
        ShapeCaster {
            shape: Rectangle { x_length: 500, y_length: 10_000 },
            origin: Vec2 { x: anchor, y: WALL_ANCHOR_HEIGHT },
            direction,
            max_distance: CAST_DISTANCE,
            max_hits: CAST_HITS,
            mask: LayerMask { player_collider: false, terrain: true, platform: false },
        }
    }
}

/// Fits out an actor that has just appeared: counters at rest, a box that
/// collides with what carries it and neither rubs nor bounces, one probe
/// below and one on either side, the left one first.
pub fn spawn() -> (fittings: Fittings)
    ensures
        fittings.info == (MoveInfo {
            should_jump_ticks: 0,
            coyote_time_ticks: 0,
            jump_boost_ticks: 0,
            walk: false,
        }),
        fittings.collider == (Rectangle { x_length: 12_000, y_length: 16_000 }),
        fittings.collider_offset == (Vec2 { x: 0, y: COLLIDER_HEIGHT }),
        fittings.memberships == (LayerMask {
            player_collider: true,
            terrain: false,
            platform: false,
        }),
        fittings.filters == footing(),
        fittings.friction == 0,
        fittings.restitution == 0,
        fittings.ground_caster == ground_probe(),
        fittings.wall_casters@ == seq![
            (WallCaster::Left, wall_probe(WallCaster::Left)),
            (WallCaster::Right, wall_probe(WallCaster::Right)),
        ],
        fittings.time_between_steps == TIME_BETWEEN_STEPS,
{
    let footing = LayerMask { player_collider: false, terrain: true, platform: true };
    let mut wall_casters: Vec<(WallCaster, ShapeCaster)> = Vec::new();
    wall_casters.push((WallCaster::Left, WallCaster::Left.shape_caster()));
    wall_casters.push((WallCaster::Right, WallCaster::Right.shape_caster()));
    assert(wall_casters@ =~= seq![
        (WallCaster::Left, wall_probe(WallCaster::Left)),
        (WallCaster::Right, wall_probe(WallCaster::Right)),
    ]);
    Fittings {
        info: MoveInfo::default(),
        collider: Rectangle { x_length: 12_000, y_length: 16_000 },
        collider_offset: Vec2 { x: 0, y: COLLIDER_HEIGHT },
        memberships: LayerMask { player_collider: true, terrain: false, platform: false },
        filters: footing,
        friction: 0,
        restitution: 0,
        ground_caster: ShapeCaster {
            shape: Rectangle { x_length: 11_800, y_length: 500 },
            origin: Vec2 { x: 0, y: GROUND_ANCHOR },
            direction: Dir2::NegY,
            max_distance: CAST_DISTANCE,
            max_hits: CAST_HITS,
            mask: footing,
        },
        wall_casters,
        time_between_steps: TIME_BETWEEN_STEPS,
    }
}

/// A footstep sound, by its identifier.
pub type Sound = u64;

/// The systems of the actor: those of its state machine; in every frame,
/// among the spawning systems, the actor is fitted out, and during gameplay
/// its footsteps sound.
pub open spec fn systems() -> Seq<Registration> {
    state::systems() + seq![
        in_set(Schedule::Update, System::SpawnPlayer, Systems::Spawn),
        Registration {
            schedule: Schedule::Update,
            system: System::Steps,
            set: Some(Systems::Spawn),
            after: None,
            run_if: Some(Game::Gameplay),
        },
    ]
}

/// Enters the systems of the actor into the plan.
pub fn plugin(app: &mut App)
    ensures
        final(app)@ == old(app)@ + systems(),
{
    let ghost before = app@;
    state::plugin(app);
    app.add_systems(
        Registration {
            schedule: Schedule::Update,
            system: System::SpawnPlayer,
            set: Some(Systems::Spawn),
            after: None,
            run_if: None,
        },
    );
    app.add_systems(
        Registration {
            schedule: Schedule::Update,
            system: System::Steps,
            set: Some(Systems::Spawn),
            after: None,
            run_if: Some(Game::Gameplay),
        },
    );
    assert(app@ =~= before + systems());
}

/// The random number generator of the current thread, `rand::rngs::ThreadRng`.
/// Nothing is known of its state.
#[verifier::external_type_specification]
#[verifier::external_body]
pub struct ExThreadRng(rand::rngs::ThreadRng);

/// `rand::rng` hands out the generator of the current thread. Nothing is
/// claimed of it.
pub assume_specification[ rand::rng ]() -> (rng: ThreadRng);

/// `rand::seq::IndexedRandom::choose` on a slice: none for an empty slice,
/// else one of its elements. Which one is left open.
#[verifier::external_body]
fn pick(tiles: &Vec<Sound>, rng: &mut ThreadRng) -> (picked: Option<Sound>)
    ensures
        picked is None <==> tiles@.len() == 0,
        picked matches Some(sound) ==> tiles@.contains(sound),
{
    tiles.choose(rng).cloned()
}

/// The actors whose step timer has just finished, in their order.
pub open spec fn due(walkers: Seq<(Entity, bool)>) -> Seq<Entity>
    decreases walkers.len(),
{
    if walkers.len() == 0 {
        seq![]
    } else if walkers.last().1 {
        due(walkers.drop_last()).push(walkers.last().0)
    } else {
        due(walkers.drop_last())
    }
}

/// The footstep of one actor whose step timer has just finished: the sound
/// that was picked for it, if one was.
pub fn step(entity: Entity, picked: Option<Sound>) -> (played: Option<(Entity, Sound)>)
    ensures
        played == match picked {
            Some(sound) => Some((entity, sound)),
            None => None,
        },
{
    match picked {
        Some(sound) => Some((entity, sound)),
        None => None,
    }
}

/// Picks the footsteps of this frame: for every grounded actor whose step
/// timer has just finished, in their order, one sound of `tiles`, chosen at
/// random. Without sounds there are no footsteps.
///
/// `walkers` holds the grounded actors, each with whether its timer has just
/// finished.
pub fn steps(tiles: &Vec<Sound>, walkers: &Vec<(Entity, bool)>) -> (played: Vec<(Entity, Sound)>)
    ensures
        tiles@.len() == 0 ==> played@.len() == 0,
        tiles@.len() > 0 ==> played@.map_values(|step: (Entity, Sound)| step.0) == due(walkers@),
        forall|i: int| 0 <= i < played@.len() ==> tiles@.contains(played@[i].1),
{
    let mut rng = rand::rng();
    let mut played: Vec<(Entity, Sound)> = Vec::new();
    let mut i: usize = 0;
    while i < walkers.len()
        invariant
            i <= walkers.len(),
            tiles@.len() == 0 ==> played@.len() == 0,
            tiles@.len() > 0 ==> played@.map_values(|step: (Entity, Sound)| step.0) == due(
                walkers@.take(i as int),
            ),
            forall|k: int| 0 <= k < played@.len() ==> tiles@.contains(played@[k].1),
        decreases walkers.len() - i,
    {
        proof {
            assert(walkers@.take(i + 1).drop_last() == walkers@.take(i as int));
        }
        let (entity, just_finished) = walkers[i];
        if just_finished {
            let ghost before = played@;
            if let Some(footstep) = step(entity, pick(tiles, &mut rng)) {
                played.push(footstep);
                assert(played@.map_values(|step: (Entity, Sound)| step.0) =~= before.map_values(
                    |step: (Entity, Sound)| step.0,
                ).push(entity));
            }
        }
        i += 1;
    }
    proof {
        assert(walkers@.take(i as int) == walkers@);
    }
    played
}

} // verus!
