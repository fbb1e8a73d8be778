//! The movement state machine: what one fixed tick does to the actor's
//! counters and velocity, given the tick's events and sensor readings.

use crate::actors::player::input::{ActionState, ButtonState};
use crate::actors::player::WallCaster;
use crate::app::{in_set, plain, App, Game, Registration, Schedule, System, Systems};
use crate::math::{clamp, clamp_wide, magnitude, scale, scale_wide, wide_limit, Scalar, UNIT};
use crate::physics::{closer_than, LinearVelocity, ShapeHits};
use vstd::prelude::*;

verus! {

/// The number of ticks a jump request stays valid after the press.
pub const SHOULD_JUMP_TICKS: isize = 8;

/// The number of ticks a jump is still honoured after the ground was left.
pub const COYOTE_TIME_TICKS: isize = 5;

/// The number of ticks a jump forces the upward velocity.
pub const JUMP_BOOST_TICKS: isize = 2;

/// The factor from design units to the units of one tick.
pub const TICK_SCALE: Scalar = 64;

/// Max horizontal velocity, in design units.
pub const PLAYER_MAX_H_VEL: Scalar = 1_500;

/// Max vertical velocity, in design units.
pub const PLAYER_MAX_Y_VEL: Scalar = 5_000;

/// The upward velocity of every jump boost tick, in design units.
pub const PLAYER_JUMP_VEL: Scalar = 2_200;

/// The horizontal velocity that a full move input adds, in design units.
pub const PLAYER_MOVE_VEL: Scalar = 400;

/// The vertical velocity that gravity takes each tick, in design units.
pub const PLAYER_GRAVITY: Scalar = 150;

/// A hit nearer than this is too close.
pub const CLEARANCE: Scalar = 250;

/// A velocity into a surface counts as into it while below this.
pub const CONTACT_FLOOR: Scalar = 500;

/// The velocity away from a surface that is too close.
pub const NUDGE: Scalar = 450;

/// The share of the horizontal velocity that a tick without input keeps.
pub const FRICTION: Scalar = 600;

/// A decaying horizontal velocity below this snaps to rest.
pub const EPSILON: Scalar = 100;

/// The share of the horizontal bound that walking keeps.
pub const WALK_MODIFIER: Scalar = 500;

/// An early release divides the upward velocity by this.
pub const JUMP_CUT: Scalar = 3;

/// A move axis deflected by no more than this is at rest.
pub const DEAD_ZONE: Scalar = 100;

/// A movement input action, queued for the next tick.
#[derive(Clone, Copy, Debug, PartialEq, Eq, Structural)]
pub enum Action {
    Move(Scalar),
    Jump,
    JumpCut,
    Walk(bool),
}

/// Marks an actor that stands on the ground.
#[derive(Clone, Copy, Debug, PartialEq, Eq, Structural)]
pub struct Grounded;

/// The counters and flags of character movement.
#[derive(Clone, Copy, Debug, PartialEq, Eq, Structural)]
pub struct MoveInfo {
    pub should_jump_ticks: isize,
    pub coyote_time_ticks: isize,
    pub jump_boost_ticks: isize,
    pub walk: bool,
}

impl Default for MoveInfo {
    fn default() -> (info: MoveInfo)
        ensures
            info == (MoveInfo {
                should_jump_ticks: 0,
                coyote_time_ticks: 0,
                jump_boost_ticks: 0,
                walk: false,
            }),
    {
        MoveInfo { should_jump_ticks: 0, coyote_time_ticks: 0, jump_boost_ticks: 0, walk: false }
    }
}

/// What event consumption carries from one event to the next: the counters,
/// the velocity so far, and whether a move event was seen.
pub struct Motion {
    pub info: MoveInfo,
    pub x: int,
    pub y: int,
    pub moved: bool,
}

/// A design-unit quantity in the units of one tick.
pub open spec fn per_tick(v: int) -> int {
    v * (TICK_SCALE as int)
}

/// The horizontal velocity that `Move(direction)` adds: the direction held
/// to `[-1, 1]`, times the move velocity.
pub open spec fn push(direction: int) -> int {
    scale(per_tick(PLAYER_MOVE_VEL as int), clamp(direction, -(UNIT as int), UNIT as int))
}

/// The counters at the start of a tick: standing on the ground refills the
/// coyote window.
pub open spec fn refresh(info: MoveInfo, grounded: bool) -> MoveInfo {
    if grounded {
        MoveInfo { coyote_time_ticks: COYOTE_TIME_TICKS, ..info }
    } else {
        info
    }
}

/// The effect of one event.
pub open spec fn consume(m: Motion, action: Action) -> Motion {
    match action {
        Action::Move(direction) => Motion { x: m.x + push(direction as int), moved: true, ..m },
        Action::Jump => Motion {
            info: MoveInfo { should_jump_ticks: SHOULD_JUMP_TICKS, ..m.info },
            ..m
        },
        Action::JumpCut => if m.y > 0 {
            Motion {
                info: MoveInfo { should_jump_ticks: 0, jump_boost_ticks: 0, ..m.info },
                y: m.y / (JUMP_CUT as int),
                ..m
            }
        } else {
            m
        },
        Action::Walk(walk) => Motion { info: MoveInfo { walk, ..m.info }, ..m },
    }
}

/// The effect of a tick's events, in the order they were queued.
pub open spec fn consume_all(m: Motion, events: Seq<Action>) -> Motion
    decreases events.len(),
{
    if events.len() == 0 {
        m
    } else {
        consume(consume_all(m, events.drop_last()), events.last())
    }
}

/// A pending request inside the coyote window arms the jump boost.
pub open spec fn arbitrate(info: MoveInfo) -> MoveInfo {
    if info.should_jump_ticks > 0 && info.coyote_time_ticks > 0 {
        MoveInfo { jump_boost_ticks: JUMP_BOOST_TICKS, ..info }
    } else {
        info
    }
}

/// The vertical velocity before it is bounded: the first rule that applies
/// of boost, nudge off ground that is too close, rest on the ground, and
/// free fall.
pub open spec fn vertical(y: int, boosting: bool, too_close: bool, grounded: bool) -> int {
    if boosting {
        per_tick(PLAYER_JUMP_VEL as int)
    } else if too_close && y < CONTACT_FLOOR {
        NUDGE as int
    } else if grounded && y < CONTACT_FLOOR {
        0
    } else {
        y - per_tick(PLAYER_GRAVITY as int)
    }
}

/// The horizontal velocity after a tick with or without move input: without,
/// friction takes its share and a remainder below [`EPSILON`] comes to rest.
pub open spec fn decay(x: int, moved: bool) -> int {
    if moved {
        x
    } else if magnitude(scale(x, FRICTION as int)) < EPSILON {
        0
    } else {
        scale(x, FRICTION as int)
    }
}

/// The response to one wall probe: a wall that is too close pushes a
/// velocity that points into it away; any other hit stops it.
pub open spec fn wall_response(x: int, hits: Seq<Scalar>, side: WallCaster) -> int {
    match side {
        WallCaster::Left => if closer_than(hits, CLEARANCE as int) && x < CONTACT_FLOOR {
            NUDGE as int
        } else if hits.len() > 0 && x < CONTACT_FLOOR {
            0
        } else {
            x
        },
        WallCaster::Right => if closer_than(hits, CLEARANCE as int) && x > -CONTACT_FLOOR {
            -NUDGE
        } else if hits.len() > 0 && x > -CONTACT_FLOOR {
            0
        } else {
            x
        },
    }
}

/// The responses to all wall probes, each applied to what the one before it
/// left.
pub open spec fn wall_responses(x: int, casters: Seq<(ShapeHits, WallCaster)>) -> int
    decreases casters.len(),
{
    if casters.len() == 0 {
        x
    } else {
        wall_response(
            wall_responses(x, casters.drop_last()),
            casters.last().0@,
            casters.last().1,
        )
    }
}

/// The bound on the horizontal speed, halved while walking.
pub open spec fn horizontal_bound(walk: bool) -> int {
    scale(
        per_tick(PLAYER_MAX_H_VEL as int),
        if walk {
            WALK_MODIFIER as int
        } else {
            UNIT as int
        },
    )
}

/// The bound on the vertical speed.
pub open spec fn vertical_bound() -> int {
    per_tick(PLAYER_MAX_Y_VEL as int)
}

/// A counter one tick later. The least value of the type stays as it is.
pub open spec fn elapse(ticks: isize) -> isize {
    if ticks > isize::MIN {
        (ticks - 1) as isize
    } else {
        ticks
    }
}

/// The counters at the end of a tick: each has lost one tick.
pub open spec fn cool(info: MoveInfo) -> MoveInfo {
    MoveInfo {
        should_jump_ticks: elapse(info.should_jump_ticks),
        coyote_time_ticks: elapse(info.coyote_time_ticks),
        jump_boost_ticks: elapse(info.jump_boost_ticks),
        walk: info.walk,
    }
}

/// The state after event consumption, from the state at the start of a tick.
pub open spec fn consumed(
    info: MoveInfo,
    velocity: LinearVelocity,
    events: Seq<Action>,
    grounded: bool,
) -> Motion {
    consume_all(
        Motion {
            info: refresh(info, grounded),
            x: velocity.x as int,
            y: velocity.y as int,
            moved: false,
        },
        events,
    )
}

/// One tick of the movement state machine: the counters and the velocity it
/// leaves.
pub open spec fn tick(
    info: MoveInfo,
    velocity: LinearVelocity,
    events: Seq<Action>,
    hits: Seq<Scalar>,
    grounded: bool,
    casters: Seq<(ShapeHits, WallCaster)>,
) -> (MoveInfo, LinearVelocity) {
    let m = consumed(info, velocity, events, grounded);
    let armed = arbitrate(m.info);
    let y = vertical(m.y, armed.jump_boost_ticks > 0, closer_than(hits, CLEARANCE as int), grounded);
    let x = wall_responses(decay(m.x, m.moved), casters);
    (
        cool(armed),
        LinearVelocity {
            x: clamp(x, -horizontal_bound(armed.walk), horizontal_bound(armed.walk)) as Scalar,
            y: clamp(y, -vertical_bound(), vertical_bound()) as Scalar,
        },
    )
}

/// The systems of this module: in every fixed tick the grounded mark is
/// brought up to date and then, after it, the actor is moved; in every frame
/// the input is turned into events; the velocity is kept when the game leaves
/// gameplay and given back when it returns.
pub open spec fn systems() -> Seq<Registration> {
    seq![
        in_set(Schedule::FixedUpdate, System::UpdateGrounded, Systems::Update),
        Registration {
            schedule: Schedule::FixedUpdate,
            system: System::Movement,
            set: Some(Systems::Update),
            after: Some(System::UpdateGrounded),
            run_if: None,
        },
        in_set(Schedule::Update, System::KeyboardInput, Systems::Input),
        plain(Schedule::OnExit(Game::Gameplay), System::StoreVelocity),
        plain(Schedule::OnEnter(Game::Gameplay), System::RestoreVelocity),
    ]
}

/// Enters the systems of this module into the plan.
pub fn plugin(app: &mut App)
    ensures
        final(app)@ == old(app)@ + systems(),
{
    let ghost before = app@;
    app.add_systems(
        Registration {
            schedule: Schedule::FixedUpdate,
            system: System::UpdateGrounded,
            set: Some(Systems::Update),
            after: None,
            run_if: None,
        },
    );
    app.add_systems(
        Registration {
            schedule: Schedule::FixedUpdate,
            system: System::Movement,
            set: Some(Systems::Update),
            after: Some(System::UpdateGrounded),
            run_if: None,
        },
    );
    app.add_systems(
        Registration {
            schedule: Schedule::Update,
            system: System::KeyboardInput,
            set: Some(Systems::Input),
            after: None,
            run_if: None,
        },
    );
    app.add_systems(
        Registration {
            schedule: Schedule::OnExit(Game::Gameplay),
            system: System::StoreVelocity,
            set: None,
            after: None,
            run_if: None,
        },
    );
    app.add_systems(
        Registration {
            schedule: Schedule::OnEnter(Game::Gameplay),
            system: System::RestoreVelocity,
            set: None,
            after: None,
            run_if: None,
        },
    );
    assert(app@ =~= before + systems());
}

/// The move event of a frame: one, carrying the axis held to `[-1, 1]`,
/// where that exceeds the dead zone.
pub open spec fn sampled_move(direction: int) -> Seq<Action> {
    let held = clamp(direction, -(UNIT as int), UNIT as int);
    if magnitude(held) > DEAD_ZONE {
        seq![Action::Move(held as Scalar)]
    } else {
        seq![]
    }
}

/// The jump events of a frame: a press asks for a jump, a release cuts it.
pub open spec fn sampled_jump(jump: ButtonState) -> Seq<Action> {
    match jump {
        ButtonState::JustPressed => seq![Action::Jump],
        ButtonState::JustReleased => seq![Action::JumpCut],
        _ => seq![],
    }
}

/// The walk events of a frame: a press sets the flag, a release clears it.
pub open spec fn sampled_walk(walk: ButtonState) -> Seq<Action> {
    match walk {
        ButtonState::JustPressed => seq![Action::Walk(true)],
        ButtonState::JustReleased => seq![Action::Walk(false)],
        _ => seq![],
    }
}

/// The events of one frame, in the order they are queued.
pub open spec fn sampled(state: ActionState) -> Seq<Action> {
    sampled_move(state.direction as int) + sampled_jump(state.jump) + sampled_walk(state.walk)
}

/// Turns one frame of input into events and queues them.
///
/// The move axis is level-triggered: it queues an event in every frame in
/// which it is deflected past the dead zone. The buttons are edge-triggered:
/// they queue an event in the frame of a press or release and in no other.
pub fn keyboard_input(state: &ActionState, events: &mut Vec<Action>)
    ensures
        final(events)@ == old(events)@ + sampled(*state),
{
    let ghost queued = events@;
    let direction = if state.direction < -UNIT {
        -UNIT
    } else if state.direction > UNIT {
        UNIT
    } else {
        state.direction
    };
    if direction > DEAD_ZONE || direction < -DEAD_ZONE {
        events.push(Action::Move(direction));
    }
    assert(events@ == queued + sampled_move(state.direction as int));
    match state.jump {
        ButtonState::JustPressed => {
            events.push(Action::Jump);
        },
        ButtonState::JustReleased => {
            events.push(Action::JumpCut);
        },
        _ => {},
    }
    assert(events@ == queued + sampled_move(state.direction as int) + sampled_jump(state.jump));
    match state.walk {
        ButtonState::JustPressed => {
            events.push(Action::Walk(true));
        },
        ButtonState::JustReleased => {
            events.push(Action::Walk(false));
        },
        _ => {},
    }
    assert(events@ == queued + sampled_move(state.direction as int) + sampled_jump(state.jump)
        + sampled_walk(state.walk));
    assert(queued + sampled_move(state.direction as int) + sampled_jump(state.jump)
        + sampled_walk(state.walk) == queued + sampled(*state));
}

/// Decides the grounded mark of a controlled actor from its ground probe:
/// present where the probe hit anything this tick, absent where it did not.
pub fn update_grounded(hits: &ShapeHits) -> (mark: Option<Grounded>)
    ensures
        mark == if hits@.len() > 0 {
            Some(Grounded)
        } else {
            None
        },
{
    if hits.any_hit() {
        Some(Grounded)
    } else {
        None
    }
}

/// The horizontal velocity that `Move(direction)` adds.
fn push_of(direction: Scalar) -> (dv: Scalar)
    ensures
        dv == push(direction as int),
        -25_600 <= dv <= 25_600,
{
    let held = if direction < -UNIT {
        -UNIT
    } else if direction > UNIT {
        UNIT
    } else {
        direction
    };
    (PLAYER_MOVE_VEL * TICK_SCALE * held) / UNIT
}

/// A counter one tick later.
fn elapse_of(ticks: isize) -> (r: isize)
    ensures
        r == elapse(ticks),
{
    if ticks > isize::MIN {
        ticks - 1
    } else {
        ticks
    }
}

/// Runs the tick's events over the counters and the velocity. The horizontal
/// velocity comes back wide: a long queue of moves may carry it past a
/// [`Scalar`] before the tick bounds it.
fn consume_events(
    events: &Vec<Action>,
    info: MoveInfo,
    velocity: LinearVelocity,
    grounded: bool,
) -> (r: (MoveInfo, i128, Scalar, bool))
    ensures
        (Motion { info: r.0, x: r.1 as int, y: r.2 as int, moved: r.3 }) == consumed(
            info,
            velocity,
            events@,
            grounded,
        ),
        -wide_limit() <= r.1 <= wide_limit(),
{
    let mut info = if grounded {
        MoveInfo { coyote_time_ticks: COYOTE_TIME_TICKS, ..info }
    } else {
        info
    };
    let mut x: i128 = velocity.x as i128;
    let mut y: Scalar = velocity.y;
    let mut moved = false;
    let ghost start = Motion { info, x: x as int, y: y as int, moved };
    let mut i: usize = 0;
    while i < events.len()
        invariant
            i <= events.len(),
            (Motion { info, x: x as int, y: y as int, moved }) == consume_all(
                start,
                events@.take(i as int),
            ),
            velocity.x - i * 25_600 <= x <= velocity.x + i * 25_600,
        decreases events.len() - i,
    {
        proof {
            assert(events@.take(i + 1).drop_last() == events@.take(i as int));
        }
        match events[i] {
            Action::Move(direction) => {
                x = x + push_of(direction) as i128;
                moved = true;
            },
            Action::Jump => {
                info.should_jump_ticks = SHOULD_JUMP_TICKS;
            },
            Action::JumpCut => {
                if y > 0 {
                    y = y / JUMP_CUT;
                    info.jump_boost_ticks = 0;
                    info.should_jump_ticks = 0;
                }
            },
            Action::Walk(walk) => {
                info.walk = walk;
            },
        }
        i += 1;
    }
    proof {
        assert(events@.take(i as int) == events@);
    }
    (info, x, y, moved)
}

/// The vertical velocity of this tick, bounded.
fn integrate_vertical(y: Scalar, boosting: bool, too_close: bool, grounded: bool) -> (r: Scalar)
    ensures
        r == clamp(
            vertical(y as int, boosting, too_close, grounded),
            -vertical_bound(),
            vertical_bound(),
        ),
{
    let raw: i128 = if boosting {
        (PLAYER_JUMP_VEL * TICK_SCALE) as i128
    } else if too_close && y < CONTACT_FLOOR {
        NUDGE as i128
    } else if grounded && y < CONTACT_FLOOR {
        0
    } else {
        y as i128 - (PLAYER_GRAVITY * TICK_SCALE) as i128
    };
    clamp_wide(raw, -(PLAYER_MAX_Y_VEL * TICK_SCALE), PLAYER_MAX_Y_VEL * TICK_SCALE)
}

/// The horizontal velocity after friction, where no move was consumed.
fn decay_of(x: i128, moved: bool) -> (r: i128)
    requires
        -wide_limit() <= x <= wide_limit(),
    ensures
        r == decay(x as int, moved),
        -wide_limit() <= r <= wide_limit(),
{
    if moved {
        x
    } else {
        let slowed = scale_wide(x, FRICTION);
        if -(EPSILON as i128) < slowed && slowed < EPSILON as i128 {
            0
        } else {
            slowed
        }
    }
}

/// The response to one wall probe.
fn wall_response_of(x: i128, hits: &ShapeHits, side: WallCaster) -> (r: i128)
    requires
        -wide_limit() <= x <= wide_limit(),
    ensures
        r == wall_response(x as int, hits@, side),
        -wide_limit() <= r <= wide_limit(),
{
    let too_close = hits.closer_than(CLEARANCE);
    let any_hit = hits.any_hit();
    match side {
        WallCaster::Left => {
            if too_close && x < CONTACT_FLOOR as i128 {
                NUDGE as i128
            } else if any_hit && x < CONTACT_FLOOR as i128 {
                0
            } else {
                x
            }
        },
        WallCaster::Right => {
            if too_close && x > -(CONTACT_FLOOR as i128) {
                -(NUDGE as i128)
            } else if any_hit && x > -(CONTACT_FLOOR as i128) {
                0
            } else {
                x
            }
        },
    }
}

/// The responses to all wall probes, in their order.
fn wall_responses_of(x: i128, wall_casters: &Vec<(ShapeHits, WallCaster)>) -> (r: i128)
    requires
        -wide_limit() <= x <= wide_limit(),
    ensures
        r == wall_responses(x as int, wall_casters@),
        -wide_limit() <= r <= wide_limit(),
{
    let mut x = x;
    let ghost start = x as int;
    let mut i: usize = 0;
    while i < wall_casters.len()
        invariant
            i <= wall_casters.len(),
            x == wall_responses(start, wall_casters@.take(i as int)),
            -wide_limit() <= x <= wide_limit(),
        decreases wall_casters.len() - i,
    {
        proof {
            assert(wall_casters@.take(i + 1).drop_last() == wall_casters@.take(i as int));
        }
        x = wall_response_of(x, &wall_casters[i].0, wall_casters[i].1);
        i += 1;
    }
    proof {
        assert(wall_casters@.take(i as int) == wall_casters@);
    }
    x
}

/// The horizontal velocity held to the bound that the walk flag sets.
fn bound_horizontal(x: i128, walk: bool) -> (r: Scalar)
    ensures
        r == clamp(x as int, -horizontal_bound(walk), horizontal_bound(walk)),
{
    let modifier = if walk {
        WALK_MODIFIER
    } else {
        UNIT
    };
    let bound = scale_wide((PLAYER_MAX_H_VEL * TICK_SCALE) as i128, modifier) as Scalar;
    clamp_wide(x, -bound, bound)
}

/// Advances the actor by one fixed tick, and empties the queue of events.
///
/// In this order: standing on the ground refills the coyote window; the
/// queued events are consumed; a pending jump request inside the coyote
/// window arms the boost; the vertical velocity follows the first rule that
/// applies and is bounded; without move input the horizontal velocity
/// decays; each wall probe responds; the horizontal velocity is bounded;
/// every counter loses one tick.
pub fn movement(
    events: &mut Vec<Action>,
    info: &mut MoveInfo,
    velocity: &mut LinearVelocity,
    shape_hits: &ShapeHits,
    is_grounded: bool,
    wall_casters: &Vec<(ShapeHits, WallCaster)>,
)
    ensures
        (*final(info), *final(velocity)) == tick(
            *old(info),
            *old(velocity),
            old(events)@,
            shape_hits@,
            is_grounded,
            wall_casters@,
        ),
        final(events)@.len() == 0,
        -horizontal_bound(final(info).walk) <= final(velocity).x <= horizontal_bound(
            final(info).walk,
        ),
        -vertical_bound() <= final(velocity).y <= vertical_bound(),
{
    let (consumed, x, y, moved) = consume_events(events, *info, *velocity, is_grounded);
    events.clear();
    let mut armed = consumed;
    if armed.should_jump_ticks > 0 && armed.coyote_time_ticks > 0 {
        armed.jump_boost_ticks = JUMP_BOOST_TICKS;
    }
    let too_close = shape_hits.closer_than(CLEARANCE);
    velocity.y = integrate_vertical(y, armed.jump_boost_ticks > 0, too_close, is_grounded);
    let x = wall_responses_of(decay_of(x, moved), wall_casters);
    velocity.x = bound_horizontal(x, armed.walk);
    info.should_jump_ticks = elapse_of(armed.should_jump_ticks);
    info.jump_boost_ticks = elapse_of(armed.jump_boost_ticks);
    info.coyote_time_ticks = elapse_of(armed.coyote_time_ticks);
    info.walk = armed.walk;
}

} // verus!
