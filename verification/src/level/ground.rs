//! Ground contact: the sensors below the actors, the bodies that overlap
//! them, and the flag that follows from that.

use crate::app::{plain, App, Registration, Schedule, System};
use crate::math::{clamp, Scalar};
use crate::physics::{CollisionEnd, CollisionStart, Cuboid, Entity, Rectangle, Vec2};
use std::collections::{HashMap, HashSet};
use vstd::prelude::*;

verus! {

/// The height of every ground detector.
pub const DETECTOR_HEIGHT: Scalar = 4_000;

/// A sensor below an actor, with the bodies that overlap it now.
#[derive(Debug)]
pub struct GroundSensor {
    /// The actor that the sensor belongs to.
    pub entity: Entity,
    pub intersection: HashSet<Entity>,
}

/// Whether an actor stands on the ground.
#[derive(Clone, Copy, Debug, PartialEq, Eq, Structural)]
pub struct GroundDetection {
    pub on_ground: bool,
}

impl Default for GroundDetection {
    fn default() -> (detection: GroundDetection)
        ensures
            detection == (GroundDetection { on_ground: false }),
    {
        GroundDetection { on_ground: false }
    }
}

/// What a ground sensor is spawned with: its shape, its place relative to
/// the actor, and its empty contact set.
#[derive(Debug)]
pub struct Detector {
    pub shape: Rectangle,
    pub translation: Vec2,
    pub sensor: GroundSensor,
}

/// The systems of this module: in every frame sensors are spawned, the
/// overlaps are read and the flags are brought up to date.
pub open spec fn systems() -> Seq<Registration> {
    seq![
        plain(Schedule::Update, System::SpawnSensor),
        plain(Schedule::Update, System::Detection),
        plain(Schedule::Update, System::GroundUpdate),
    ]
}

/// Enters the systems of this module into the plan.
pub fn plugin(app: &mut App)
    ensures
        final(app)@ == old(app)@ + systems(),
{
    let ghost before = app@;
    app.add_systems(
        Registration {
            schedule: Schedule::Update,
            system: System::SpawnSensor,
            set: None,
            after: None,
            run_if: None,
        },
    );
    app.add_systems(
        Registration {
            schedule: Schedule::Update,
            system: System::Detection,
            set: None,
            after: None,
            run_if: None,
        },
    );
    app.add_systems(
        Registration {
            schedule: Schedule::Update,
            system: System::GroundUpdate,
            set: None,
            after: None,
            run_if: None,
        },
    );
    assert(app@ =~= before + systems());
}

/// The contact set of every sensor.
pub open spec fn contacts(sensors: Map<Entity, GroundSensor>) -> Map<Entity, Set<Entity>> {
    sensors.map_values(|sensor: GroundSensor| sensor.intersection@)
}

/// The actor of every sensor.
pub open spec fn owners(sensors: Map<Entity, GroundSensor>) -> Map<Entity, Entity> {
    sensors.map_values(|sensor: GroundSensor| sensor.entity)
}

/// The sensor and the body of an overlap between `collider1` and `collider2`,
/// where there are such: the first of the two that is a solid collider is
/// the body, and the other must be a ground sensor.
pub open spec fn route(
    collider1: Entity,
    collider2: Entity,
    sensors: Set<Entity>,
    colliders: Set<Entity>,
) -> Option<(Entity, Entity)> {
    if colliders.contains(collider1) {
        if sensors.contains(collider2) {
            Some((collider2, collider1))
        } else {
            None
        }
    } else if colliders.contains(collider2) {
        if sensors.contains(collider1) {
            Some((collider1, collider2))
        } else {
            None
        }
    } else {
        None
    }
}

/// The contact sets after two colliders began to overlap.
pub open spec fn overlap_started(
    sets: Map<Entity, Set<Entity>>,
    collider1: Entity,
    collider2: Entity,
    colliders: Set<Entity>,
) -> Map<Entity, Set<Entity>> {
    match route(collider1, collider2, sets.dom(), colliders) {
        Some((sensor, body)) => sets.insert(sensor, sets[sensor].insert(body)),
        None => sets,
    }
}

/// The contact sets after two colliders ceased to overlap.
pub open spec fn overlap_ended(
    sets: Map<Entity, Set<Entity>>,
    collider1: Entity,
    collider2: Entity,
    colliders: Set<Entity>,
) -> Map<Entity, Set<Entity>> {
    match route(collider1, collider2, sets.dom(), colliders) {
        Some((sensor, body)) => sets.insert(sensor, sets[sensor].remove(body)),
        None => sets,
    }
}

/// The contact sets after a run of overlap starts, in their order.
pub open spec fn started_all(
    sets: Map<Entity, Set<Entity>>,
    start: Seq<CollisionStart>,
    colliders: Set<Entity>,
) -> Map<Entity, Set<Entity>>
    decreases start.len(),
{
    if start.len() == 0 {
        sets
    } else {
        overlap_started(
            started_all(sets, start.drop_last(), colliders),
            start.last().collider1,
            start.last().collider2,
            colliders,
        )
    }
}

/// The contact sets after a run of overlap ends, in their order.
pub open spec fn ended_all(
    sets: Map<Entity, Set<Entity>>,
    end: Seq<CollisionEnd>,
    colliders: Set<Entity>,
) -> Map<Entity, Set<Entity>>
    decreases end.len(),
{
    if end.len() == 0 {
        sets
    } else {
        overlap_ended(
            ended_all(sets, end.drop_last(), colliders),
            end.last().collider1,
            end.last().collider2,
            colliders,
        )
    }
}

/// The sensors that a run of overlaps concerns, one entry for each overlap
/// that concerns one, in the order of the overlaps.
pub open spec fn touched(
    pairs: Seq<(Entity, Entity)>,
    sensors: Set<Entity>,
    colliders: Set<Entity>,
) -> Seq<Entity>
    decreases pairs.len(),
{
    if pairs.len() == 0 {
        seq![]
    } else {
        let before = touched(pairs.drop_last(), sensors, colliders);
        match route(pairs.last().0, pairs.last().1, sensors, colliders) {
            Some((sensor, _)) => before.push(sensor),
            None => before,
        }
    }
}

/// The colliders of a run of overlap starts, pair by pair.
pub open spec fn start_pairs(start: Seq<CollisionStart>) -> Seq<(Entity, Entity)> {
    start.map_values(|overlap: CollisionStart| (overlap.collider1, overlap.collider2))
}

/// The colliders of a run of overlap ends, pair by pair.
pub open spec fn end_pairs(end: Seq<CollisionEnd>) -> Seq<(Entity, Entity)> {
    end.map_values(|overlap: CollisionEnd| (overlap.collider1, overlap.collider2))
}

/// The ground flags after one changed sensor was read: the flag of the
/// sensor's actor, where the actor has one, says whether the sensor's set
/// holds anything.
pub open spec fn flag_updated(
    flags: Map<Entity, GroundDetection>,
    sensors: Map<Entity, GroundSensor>,
    changed: Entity,
) -> Map<Entity, GroundDetection> {
    if sensors.contains_key(changed) && flags.contains_key(sensors[changed].entity) {
        flags.insert(
            sensors[changed].entity,
            GroundDetection { on_ground: !sensors[changed].intersection@.is_empty() },
        )
    } else {
        flags
    }
}

/// The ground flags after a run of changed sensors was read, in their order.
pub open spec fn flags_updated(
    flags: Map<Entity, GroundDetection>,
    sensors: Map<Entity, GroundSensor>,
    changed: Seq<Entity>,
) -> Map<Entity, GroundDetection>
    decreases changed.len(),
{
    if changed.len() == 0 {
        flags
    } else {
        flag_updated(flags_updated(flags, sensors, changed.drop_last()), sensors, changed.last())
    }
}

/// Starting and ending discover no sensor and lose none.
pub proof fn overlaps_keep_sensors(
    sets: Map<Entity, Set<Entity>>,
    collider1: Entity,
    collider2: Entity,
    colliders: Set<Entity>,
)
    ensures
        overlap_started(sets, collider1, collider2, colliders).dom() == sets.dom(),
        overlap_ended(sets, collider1, collider2, colliders).dom() == sets.dom(),
{
    assert(overlap_started(sets, collider1, collider2, colliders).dom() =~= sets.dom());
    assert(overlap_ended(sets, collider1, collider2, colliders).dom() =~= sets.dom());
}

/// An overlap that starts and then ends leaves every contact set without the
/// body. Where the body did not overlap the sensor before, that is every set
/// exactly as it was: an empty set is empty again.
pub proof fn overlap_round_trip(
    sets: Map<Entity, Set<Entity>>,
    collider1: Entity,
    collider2: Entity,
    colliders: Set<Entity>,
)
    ensures
        match route(collider1, collider2, sets.dom(), colliders) {
            Some((sensor, body)) => {
                &&& overlap_ended(
                    overlap_started(sets, collider1, collider2, colliders),
                    collider1,
                    collider2,
                    colliders,
                ) == sets.insert(sensor, sets[sensor].remove(body))
                &&& !sets[sensor].contains(body) ==> overlap_ended(
                    overlap_started(sets, collider1, collider2, colliders),
                    collider1,
                    collider2,
                    colliders,
                ) == sets
            },
            None => overlap_ended(
                overlap_started(sets, collider1, collider2, colliders),
                collider1,
                collider2,
                colliders,
            ) == sets,
        },
{
    overlaps_keep_sensors(sets, collider1, collider2, colliders);
    match route(collider1, collider2, sets.dom(), colliders) {
        Some((sensor, body)) => {
            let began = overlap_started(sets, collider1, collider2, colliders);
            let ended = overlap_ended(began, collider1, collider2, colliders);
            assert(sets[sensor].insert(body).remove(body) =~= sets[sensor].remove(body));
            assert(ended =~= sets.insert(sensor, sets[sensor].remove(body)));
            if !sets[sensor].contains(body) {
                assert(sets[sensor].remove(body) =~= sets[sensor]);
                assert(ended =~= sets);
            }
        },
        None => {},
    }
}

/// A start repeated changes nothing more: the sets hold members, not counts.
pub proof fn overlap_start_is_idempotent(
    sets: Map<Entity, Set<Entity>>,
    collider1: Entity,
    collider2: Entity,
    colliders: Set<Entity>,
)
    ensures
        overlap_started(
            overlap_started(sets, collider1, collider2, colliders),
            collider1,
            collider2,
            colliders,
        ) == overlap_started(sets, collider1, collider2, colliders),
{
    overlaps_keep_sensors(sets, collider1, collider2, colliders);
    let once = overlap_started(sets, collider1, collider2, colliders);
    let twice = overlap_started(once, collider1, collider2, colliders);
    match route(collider1, collider2, sets.dom(), colliders) {
        Some((sensor, body)) => {
            assert(sets[sensor].insert(body).insert(body) =~= sets[sensor].insert(body));
            assert(twice =~= once);
        },
        None => {},
    }
}

impl GroundSensor {
    /// A body began to overlap the sensor.
    pub fn overlap_started(&mut self, other: Entity)
        ensures
            final(self).entity == old(self).entity,
            final(self).intersection@ == old(self).intersection@.insert(other),
    {
        self.intersection.insert(other);
    }

    /// A body ceased to overlap the sensor.
    pub fn overlap_ended(&mut self, other: Entity)
        ensures
            final(self).entity == old(self).entity,
            final(self).intersection@ == old(self).intersection@.remove(other),
    {
        self.intersection.remove(&other);
    }
}

/// Describes the ground sensor of an actor that has just been given a ground
/// flag: as wide as the half extent of the actor's box, placed at the
/// box's lower edge, with nothing in contact. An actor whose collider is no
/// box gets none.
///
/// The lower edge of a box whose half extent is the least scalar lies past
/// the greatest one, and is held to it.
pub fn spawn_sensor(entity: Entity, collider: Option<Cuboid>) -> (spawned: Option<Detector>)
    ensures
        spawned is Some <==> collider is Some,
        collider matches Some(cuboid) ==> {
            &&& spawned->0.shape == (Rectangle {
                x_length: cuboid.half_extents.x,
                y_length: DETECTOR_HEIGHT,
            })
            &&& spawned->0.translation.x == 0
            &&& spawned->0.translation.y == clamp(
                -cuboid.half_extents.y,
                Scalar::MIN as int,
                Scalar::MAX as int,
            )
            &&& spawned->0.sensor.entity == entity
            &&& spawned->0.sensor.intersection@ == Set::<Entity>::empty()
        },
{
    match collider {
        Some(cuboid) => {
            let (x, y) = (cuboid.half_extents.x, cuboid.half_extents.y);
            let lower_edge = if y == Scalar::MIN {
                Scalar::MAX
            } else {
                -y
            };
            Some(
                Detector {
                    shape: Rectangle { x_length: x, y_length: DETECTOR_HEIGHT },
                    translation: Vec2 { x: 0, y: lower_edge },
                    sensor: GroundSensor { entity, intersection: HashSet::new() },
                },
            )
        },
        None => None,
    }
}

/// The sensor and the body of an overlap, where there are such.
fn route_of(
    collider1: Entity,
    collider2: Entity,
    ground_sensors: &HashMap<Entity, GroundSensor>,
    colliders: &HashSet<Entity>,
) -> (pair: Option<(Entity, Entity)>)
    ensures
        pair == route(collider1, collider2, ground_sensors@.dom(), colliders@),
{
    if colliders.contains(&collider1) {
        if ground_sensors.contains_key(&collider2) {
            Some((collider2, collider1))
        } else {
            None
        }
    } else if colliders.contains(&collider2) {
        if ground_sensors.contains_key(&collider1) {
            Some((collider1, collider2))
        } else {
            None
        }
    } else {
        None
    }
}

/// Applies one overlap start or end to the sensor it concerns, and returns
/// that sensor.
fn apply_overlap(
    ground_sensors: &mut HashMap<Entity, GroundSensor>,
    collider1: Entity,
    collider2: Entity,
    colliders: &HashSet<Entity>,
    started: bool,
) -> (concerned: Option<Entity>)
    ensures
        concerned == match route(collider1, collider2, old(ground_sensors)@.dom(), colliders@) {
            Some((sensor, _)) => Some(sensor),
            None => None,
        },
        final(ground_sensors)@.dom() == old(ground_sensors)@.dom(),
        owners(final(ground_sensors)@) == owners(old(ground_sensors)@),
        contacts(final(ground_sensors)@) == if started {
            overlap_started(contacts(old(ground_sensors)@), collider1, collider2, colliders@)
        } else {
            overlap_ended(contacts(old(ground_sensors)@), collider1, collider2, colliders@)
        },
{
    let ghost before = ground_sensors@;
    assert(contacts(before).dom() =~= before.dom());
    if let Some((sensor, body)) = route_of(collider1, collider2, ground_sensors, colliders) {
        if let Some(mut hit) = ground_sensors.remove(&sensor) {
            if started {
                hit.overlap_started(body);
            } else {
                hit.overlap_ended(body);
            }
            ground_sensors.insert(sensor, hit);
            assert(ground_sensors@.dom() =~= before.dom());
            assert(owners(ground_sensors@) =~= owners(before));
            assert(contacts(ground_sensors@) =~= if started {
                contacts(before).insert(sensor, contacts(before)[sensor].insert(body))
            } else {
                contacts(before).insert(sensor, contacts(before)[sensor].remove(body))
            });
        }
        Some(sensor)
    } else {
        None
    }
}

/// Brings the contact set of every ground sensor up to date with the
/// overlaps that the physics engine reported: first all starts, then all
/// ends, each in its order. Returns the sensors that changed: one entry for
/// each overlap that concerns a ground sensor, in the order they were read.
///
/// A start puts the body into the set of the sensor it overlaps, an end takes
/// it out, whatever number of starts came before: the sets hold members,
/// not counts. An overlap between two sensors, between two bodies, or with a
/// sensor that is no ground sensor changes nothing. No sensor appears or
/// disappears, and none changes its actor.
pub fn detection(
    start: &Vec<CollisionStart>,
    end: &Vec<CollisionEnd>,
    ground_sensors: &mut HashMap<Entity, GroundSensor>,
    colliders: &HashSet<Entity>,
) -> (changed: Vec<Entity>)
    ensures
        final(ground_sensors)@.dom() == old(ground_sensors)@.dom(),
        owners(final(ground_sensors)@) == owners(old(ground_sensors)@),
        contacts(final(ground_sensors)@) == ended_all(
            started_all(contacts(old(ground_sensors)@), start@, colliders@),
            end@,
            colliders@,
        ),
        changed@ == touched(start_pairs(start@), old(ground_sensors)@.dom(), colliders@) + touched(
            end_pairs(end@),
            old(ground_sensors)@.dom(),
            colliders@,
        ),
{
    let ghost before = contacts(ground_sensors@);
    let ghost actors = owners(ground_sensors@);
    let ghost ids = ground_sensors@.dom();
    let mut changed: Vec<Entity> = Vec::new();
    let mut i: usize = 0;
    while i < start.len()
        invariant
            i <= start.len(),
            ground_sensors@.dom() == ids,
            owners(ground_sensors@) == actors,
            contacts(ground_sensors@) == started_all(before, start@.take(i as int), colliders@),
            changed@ == touched(start_pairs(start@.take(i as int)), ids, colliders@),
        decreases start.len() - i,
    {
        proof {
            assert(start@.take(i + 1).drop_last() == start@.take(i as int));
            assert(start_pairs(start@.take(i + 1)).drop_last() == start_pairs(
                start@.take(i as int),
            ));
            assert(contacts(ground_sensors@).dom() =~= ids);
        }
        let concerned = apply_overlap(
            ground_sensors,
            start[i].collider1,
            start[i].collider2,
            colliders,
            true,
        );
        if let Some(sensor) = concerned {
            changed.push(sensor);
        }
        i += 1;
    }
    proof {
        assert(start@.take(i as int) == start@);
    }
    let ghost began = contacts(ground_sensors@);
    let ghost first = changed@;
    let mut i: usize = 0;
    while i < end.len()
        invariant
            i <= end.len(),
            ground_sensors@.dom() == ids,
            owners(ground_sensors@) == actors,
            contacts(ground_sensors@) == ended_all(began, end@.take(i as int), colliders@),
            changed@ == first + touched(end_pairs(end@.take(i as int)), ids, colliders@),
        decreases end.len() - i,
    {
        proof {
            assert(end@.take(i + 1).drop_last() == end@.take(i as int));
            assert(end_pairs(end@.take(i + 1)).drop_last() == end_pairs(end@.take(i as int)));
            assert(contacts(ground_sensors@).dom() =~= ids);
        }
        let concerned = apply_overlap(
            ground_sensors,
            end[i].collider1,
            end[i].collider2,
            colliders,
            false,
        );
        if let Some(sensor) = concerned {
            changed.push(sensor);
            assert(changed@ =~= first + touched(end_pairs(end@.take(i as int)), ids, colliders@).push(
                sensor,
            ));
        }
        i += 1;
    }
    proof {
        assert(end@.take(i as int) == end@);
    }
    changed
}

/// Brings the ground flags up to date with the sensors that changed, in
/// their order: the flag of a changed sensor's actor says whether the
/// sensor's set holds anything. A changed identifier that is no sensor, and
/// a sensor whose actor has no flag, change nothing.
pub fn update(
    detectors: &mut HashMap<Entity, GroundDetection>,
    sensors: &HashMap<Entity, GroundSensor>,
    changed: &Vec<Entity>,
)
    ensures
        final(detectors)@ == flags_updated(old(detectors)@, sensors@, changed@),
{
    let ghost before = detectors@;
    let mut i: usize = 0;
    while i < changed.len()
        invariant
            i <= changed.len(),
            detectors@ == flags_updated(before, sensors@, changed@.take(i as int)),
        decreases changed.len() - i,
    {
        proof {
            assert(changed@.take(i + 1).drop_last() == changed@.take(i as int));
        }
        if let Some(sensor) = sensors.get(&changed[i]) {
            if detectors.contains_key(&sensor.entity) {
                let on_ground = !sensor.intersection.is_empty();
                detectors.insert(sensor.entity, GroundDetection { on_ground });
            }
        }
        i += 1;
    }
    proof {
        assert(changed@.take(i as int) == changed@);
    }
}

} // verus!
