//! What the movement state machine guarantees over one tick and over runs of
//! ticks: how its counters fall, when a jump cut is idle, and how long a
//! jump press and a lost footing stay good.

use crate::actors::player::state::{
    consume, consume_all, consumed, per_tick, push, refresh, tick, Action, Motion, MoveInfo,
    COYOTE_TIME_TICKS, JUMP_BOOST_TICKS, JUMP_CUT, PLAYER_JUMP_VEL, SHOULD_JUMP_TICKS,
};
use crate::actors::player::WallCaster;
use crate::math::Scalar;
use crate::physics::{LinearVelocity, ShapeHits};
use vstd::prelude::*;

verus! {

/// What one tick is given: the velocity that the physics engine hands in,
/// the queued events, the ground probe's hits, the grounded flag and the wall
/// probes.
pub struct Frame {
    pub velocity: LinearVelocity,
    pub events: Seq<Action>,
    pub hits: Seq<Scalar>,
    pub grounded: bool,
    pub casters: Seq<(ShapeHits, WallCaster)>,
}

/// The counters after one tick.
pub open spec fn step(info: MoveInfo, frame: Frame) -> MoveInfo {
    tick(info, frame.velocity, frame.events, frame.hits, frame.grounded, frame.casters).0
}

/// The velocity after one tick.
pub open spec fn step_velocity(info: MoveInfo, frame: Frame) -> LinearVelocity {
    tick(info, frame.velocity, frame.events, frame.hits, frame.grounded, frame.casters).1
}

/// The counters after a run of ticks. Between two ticks the physics engine
/// may change the velocity at will: each frame brings its own.
pub open spec fn run(info: MoveInfo, frames: Seq<Frame>) -> MoveInfo
    decreases frames.len(),
{
    if frames.len() == 0 {
        info
    } else {
        step(run(info, frames.drop_last()), frames.last())
    }
}

/// Whether `events` hold a jump press.
pub open spec fn presses_jump(events: Seq<Action>) -> bool {
    exists|i: int| 0 <= i < events.len() && events[i] == Action::Jump
}

/// The vertical velocity after the jump cuts among `events`.
pub open spec fn cut_velocity(y: int, events: Seq<Action>) -> int
    decreases events.len(),
{
    if events.len() == 0 {
        y
    } else {
        let before = cut_velocity(y, events.drop_last());
        if events.last() == Action::JumpCut && before > 0 {
            before / (JUMP_CUT as int)
        } else {
            before
        }
    }
}

/// Whether the event at `at` is a jump cut that meets an upward velocity,
/// `y` being the velocity before the first event.
pub open spec fn cut_lands(y: int, events: Seq<Action>, at: int) -> bool {
    events[at] == Action::JumpCut && cut_velocity(y, events.take(at)) > 0
}

/// Whether no jump cut of the frame meets an upward velocity.
pub open spec fn no_cut_lands(frame: Frame) -> bool {
    forall|j: int|
        0 <= j < frame.events.len() ==> !cut_lands(frame.velocity.y as int, frame.events, j)
}

/// Whether the frame holds a jump press that no later jump cut of the frame
/// takes back.
pub open spec fn requests_jump(frame: Frame) -> bool {
    exists|i: int|
        0 <= i < frame.events.len() && frame.events[i] == Action::Jump && forall|j: int|
            i < j < frame.events.len() ==> !cut_lands(frame.velocity.y as int, frame.events, j)
}

/// Whether the tick arms the jump boost: after its events a request is
/// pending inside the coyote window.
pub open spec fn arms_boost(info: MoveInfo, frame: Frame) -> bool {
    let m = consumed(info, frame.velocity, frame.events, frame.grounded);
    m.info.should_jump_ticks > 0 && m.info.coyote_time_ticks > 0
}

/// The sum of what the move events among `events` add to the horizontal
/// velocity.
pub open spec fn pushes(events: Seq<Action>) -> int
    decreases events.len(),
{
    if events.len() == 0 {
        0
    } else {
        pushes(events.drop_last()) + match events.last() {
            Action::Move(direction) => push(direction as int),
            _ => 0,
        }
    }
}

/// The walk flag after `events`: what the last walk event among them says,
/// or `walk` where there is none.
pub open spec fn last_walk(walk: bool, events: Seq<Action>) -> bool
    decreases events.len(),
{
    if events.len() == 0 {
        walk
    } else {
        match events.last() {
            Action::Walk(flag) => flag,
            _ => last_walk(walk, events.drop_last()),
        }
    }
}

/// Whether `events` hold a move event.
pub open spec fn moves(events: Seq<Action>) -> bool {
    exists|i: int| 0 <= i < events.len() && events[i] is Move
}

/// The move events of a tick add up, whatever lies between them; the last
/// walk event of a tick decides the walk flag; and input counts as given
/// where there is a move event, whatever its magnitude.
pub proof fn moves_add_up_and_last_walk_decides(m: Motion, events: Seq<Action>)
    ensures
        consume_all(m, events).x == m.x + pushes(events),
        consume_all(m, events).info.walk == last_walk(m.info.walk, events),
        consume_all(m, events).moved == (m.moved || moves(events)),
    decreases events.len(),
{
    if events.len() > 0 {
        let prefix = events.drop_last();
        moves_add_up_and_last_walk_decides(m, prefix);
        if moves(prefix) {
            let i = choose|i: int| 0 <= i < prefix.len() && prefix[i] is Move;
            assert(events[i] is Move);
        }
        if events.last() is Move {
            assert(events[events.len() - 1] is Move);
        } else if moves(events) {
            let i = choose|i: int| 0 <= i < events.len() && events[i] is Move;
            assert(prefix[i] is Move);
        }
    }
}

/// Events consumed in two parts give what they give in one.
pub proof fn consume_all_splits(m: Motion, first: Seq<Action>, second: Seq<Action>)
    ensures
        consume_all(m, first + second) == consume_all(consume_all(m, first), second),
    decreases second.len(),
{
    if second.len() == 0 {
        assert(first + second == first);
    } else {
        assert((first + second).drop_last() == first + second.drop_last());
        consume_all_splits(m, first, second.drop_last());
    }
}

/// Event consumption changes the vertical velocity by jump cuts alone, and
/// never touches the coyote window.
proof fn consumption_cuts(m: Motion, events: Seq<Action>)
    ensures
        consume_all(m, events).y == cut_velocity(m.y, events),
        consume_all(m, events).info.coyote_time_ticks == m.info.coyote_time_ticks,
        m.y <= 0 ==> cut_velocity(m.y, events) == m.y,
    decreases events.len(),
{
    if events.len() > 0 {
        consumption_cuts(m, events.drop_last());
    }
}

/// Where no jump cut lands, the boost counter passes event consumption
/// unchanged, and the request counter is full after a press and unchanged
/// without one.
proof fn consumption_without_cut(m: Motion, events: Seq<Action>)
    requires
        forall|j: int| 0 <= j < events.len() ==> !cut_lands(m.y, events, j),
    ensures
        consume_all(m, events).info.jump_boost_ticks == m.info.jump_boost_ticks,
        consume_all(m, events).info.should_jump_ticks == if presses_jump(events) {
            SHOULD_JUMP_TICKS
        } else {
            m.info.should_jump_ticks
        },
    decreases events.len(),
{
    if events.len() > 0 {
        let prefix = events.drop_last();
        let last = events.len() - 1;
        assert forall|j: int| 0 <= j < prefix.len() implies !cut_lands(m.y, prefix, j) by {
            assert(prefix.take(j) == events.take(j));
            assert(!cut_lands(m.y, events, j));
        }
        consumption_without_cut(m, prefix);
        consumption_cuts(m, prefix);
        assert(events.take(last) == prefix);
        assert(!cut_lands(m.y, events, last));
        if presses_jump(prefix) {
            let i = choose|i: int| 0 <= i < prefix.len() && prefix[i] == Action::Jump;
            assert(events[i] == Action::Jump);
        }
        if events.last() == Action::Jump {
            assert(events[last] == Action::Jump);
        } else if presses_jump(events) {
            let i = choose|i: int| 0 <= i < events.len() && events[i] == Action::Jump;
            assert(prefix[i] == Action::Jump);
        }
    }
}

/// After a jump press that no later jump cut takes back, the request
/// counter is full.
proof fn consumption_after_press(m: Motion, events: Seq<Action>, press: int)
    requires
        0 <= press < events.len(),
        events[press] == Action::Jump,
        forall|j: int| press < j < events.len() ==> !cut_lands(m.y, events, j),
    ensures
        consume_all(m, events).info.should_jump_ticks == SHOULD_JUMP_TICKS,
    decreases events.len(),
{
    let prefix = events.drop_last();
    let last = events.len() - 1;
    if press < last {
        assert forall|j: int| press < j < prefix.len() implies !cut_lands(m.y, prefix, j) by {
            assert(prefix.take(j) == events.take(j));
            assert(!cut_lands(m.y, events, j));
        }
        consumption_after_press(m, prefix, press);
        consumption_cuts(m, prefix);
        assert(events.take(last) == prefix);
        assert(!cut_lands(m.y, events, last));
    }
}

/// A tick that arms the boost leaves it one tick short of full and sets the
/// vertical velocity to the jump velocity.
proof fn armed_tick_jumps(info: MoveInfo, frame: Frame)
    requires
        arms_boost(info, frame),
    ensures
        step(info, frame).jump_boost_ticks == JUMP_BOOST_TICKS - 1,
        step_velocity(info, frame).y == per_tick(PLAYER_JUMP_VEL as int),
{
}

/// Each counter that nothing sets in a tick is one less after it: the
/// coyote window off the ground, the jump request without a press and
/// without a jump cut that lands, the boost without a jump cut that lands
/// where the tick does not arm it. The least value of the counter's type
/// alone stays as it is.
pub proof fn untouched_counters_lose_one_tick(info: MoveInfo, frame: Frame)
    ensures
        !frame.grounded && info.coyote_time_ticks > isize::MIN ==> step(
            info,
            frame,
        ).coyote_time_ticks == info.coyote_time_ticks - 1,
        !presses_jump(frame.events) && no_cut_lands(frame) && info.should_jump_ticks > isize::MIN
            ==> step(info, frame).should_jump_ticks == info.should_jump_ticks - 1,
        !arms_boost(info, frame) && no_cut_lands(frame) && info.jump_boost_ticks > isize::MIN
            ==> step(info, frame).jump_boost_ticks == info.jump_boost_ticks - 1,
{
    let start = Motion {
        info: refresh(info, frame.grounded),
        x: frame.velocity.x as int,
        y: frame.velocity.y as int,
        moved: false,
    };
    consumption_cuts(start, frame.events);
    if no_cut_lands(frame) {
        consumption_without_cut(start, frame.events);
    }
}

/// Each counter that a tick sets is one tick short of its full value after
/// it: the coyote window on the ground, the jump request after a press that
/// no later jump cut takes back, the boost where the tick arms it.
pub proof fn set_counters_start_full(info: MoveInfo, frame: Frame)
    ensures
        frame.grounded ==> step(info, frame).coyote_time_ticks == COYOTE_TIME_TICKS - 1,
        requests_jump(frame) ==> step(info, frame).should_jump_ticks == SHOULD_JUMP_TICKS - 1,
        arms_boost(info, frame) ==> step(info, frame).jump_boost_ticks == JUMP_BOOST_TICKS - 1,
{
    let start = Motion {
        info: refresh(info, frame.grounded),
        x: frame.velocity.x as int,
        y: frame.velocity.y as int,
        moved: false,
    };
    consumption_cuts(start, frame.events);
    if requests_jump(frame) {
        let press = choose|i: int|
            0 <= i < frame.events.len() && frame.events[i] == Action::Jump && forall|j: int|
                i < j < frame.events.len() ==> !cut_lands(
                    frame.velocity.y as int,
                    frame.events,
                    j,
                );
        consumption_after_press(start, frame.events, press);
    }
}

/// A jump cut that meets a vertical velocity of zero or less changes
/// nothing.
pub proof fn jump_cut_needs_rise(m: Motion)
    requires
        m.y <= 0,
    ensures
        consume(m, Action::JumpCut) == m,
        consume(consume(m, Action::JumpCut), Action::JumpCut) == m,
{
}

/// While the actor does not rise, a jump cut anywhere among a tick's events
/// is idle: the tick ends as it would without it.
pub proof fn idle_jump_cut_leaves_tick(
    info: MoveInfo,
    velocity: LinearVelocity,
    before: Seq<Action>,
    after: Seq<Action>,
    hits: Seq<Scalar>,
    grounded: bool,
    casters: Seq<(ShapeHits, WallCaster)>,
)
    requires
        velocity.y <= 0,
    ensures
        tick(info, velocity, before + seq![Action::JumpCut] + after, hits, grounded, casters)
            == tick(info, velocity, before + after, hits, grounded, casters),
{
    let start = Motion {
        info: refresh(info, grounded),
        x: velocity.x as int,
        y: velocity.y as int,
        moved: false,
    };
    let cut = seq![Action::JumpCut];
    consumption_cuts(start, before);
    let met = consume_all(start, before);
    assert(consume_all(met, cut) == met) by {
        assert(cut.drop_last() == Seq::<Action>::empty());
        assert(consume_all(met, cut.drop_last()) == met);
        assert(cut.last() == Action::JumpCut);
    }
    consume_all_splits(start, before, cut);
    consume_all_splits(start, before + cut, after);
    consume_all_splits(start, before, after);
}

/// The coyote window over a run of ticks: it never exceeds its value after
/// a tick on the ground, and falls by at most one per tick.
proof fn coyote_window_over_run(info: MoveInfo, frames: Seq<Frame>)
    requires
        frames.len() <= info.coyote_time_ticks <= COYOTE_TIME_TICKS - 1,
    ensures
        info.coyote_time_ticks - frames.len() <= run(info, frames).coyote_time_ticks
            <= COYOTE_TIME_TICKS - 1,
    decreases frames.len(),
{
    if frames.len() > 0 {
        coyote_window_over_run(info, frames.drop_last());
        let reached = run(info, frames.drop_last());
        untouched_counters_lose_one_tick(reached, frames.last());
        set_counters_start_full(reached, frames.last());
    }
}

/// The jump request over a run of ticks in which no jump cut lands: it
/// never exceeds its value after the tick of a press, and falls by at most
/// one per tick.
proof fn request_over_run(info: MoveInfo, frames: Seq<Frame>)
    requires
        frames.len() <= info.should_jump_ticks <= SHOULD_JUMP_TICKS - 1,
        forall|i: int| 0 <= i < frames.len() ==> no_cut_lands(#[trigger] frames[i]),
    ensures
        info.should_jump_ticks - frames.len() <= run(info, frames).should_jump_ticks
            <= SHOULD_JUMP_TICKS - 1,
    decreases frames.len(),
{
    if frames.len() > 0 {
        let rest = frames.drop_last();
        assert forall|i: int| 0 <= i < rest.len() implies no_cut_lands(#[trigger] rest[i]) by {
            assert(rest[i] == frames[i]);
        }
        request_over_run(info, rest);
        let reached = run(info, rest);
        let frame = frames.last();
        assert(no_cut_lands(frame));
        let start = Motion {
            info: refresh(reached, frame.grounded),
            x: frame.velocity.x as int,
            y: frame.velocity.y as int,
            moved: false,
        };
        consumption_without_cut(start, frame.events);
    }
}

/// Coyote time. After a tick on the ground, a jump requested in any of the
/// next `COYOTE_TIME_TICKS - 1` ticks is armed in the tick of the request,
/// whether or not the actor has stood on the ground since: that tick leaves
/// the boost counter above zero and the vertical velocity at the jump
/// velocity.
pub proof fn coyote_time(info: MoveInfo, landed: Frame, air: Seq<Frame>, jump: Frame)
    requires
        landed.grounded,
        air.len() < COYOTE_TIME_TICKS - 1,
        requests_jump(jump),
    ensures
        step(run(step(info, landed), air), jump).jump_boost_ticks == JUMP_BOOST_TICKS - 1,
        step_velocity(run(step(info, landed), air), jump).y == per_tick(PLAYER_JUMP_VEL as int),
{
    set_counters_start_full(info, landed);
    coyote_window_over_run(step(info, landed), air);
    let reached = run(step(info, landed), air);
    press_inside_window_jumps(reached, jump);
}

/// A jump requested in a tick that begins inside the coyote window, or on
/// the ground, is armed in that tick.
pub proof fn press_inside_window_jumps(info: MoveInfo, jump: Frame)
    requires
        jump.grounded || info.coyote_time_ticks > 0,
        requests_jump(jump),
    ensures
        arms_boost(info, jump),
        step(info, jump).jump_boost_ticks == JUMP_BOOST_TICKS - 1,
        step_velocity(info, jump).y == per_tick(PLAYER_JUMP_VEL as int),
{
    let start = Motion {
        info: refresh(info, jump.grounded),
        x: jump.velocity.x as int,
        y: jump.velocity.y as int,
        moved: false,
    };
    let press = choose|i: int|
        0 <= i < jump.events.len() && jump.events[i] == Action::Jump && forall|j: int|
            i < j < jump.events.len() ==> !cut_lands(jump.velocity.y as int, jump.events, j);
    consumption_after_press(start, jump.events, press);
    consumption_cuts(start, jump.events);
    armed_tick_jumps(info, jump);
}

/// The end of coyote time. After a tick on the ground and
/// `COYOTE_TIME_TICKS - 1` ticks off it, the window is shut: no tick off the
/// ground arms the boost, whatever its events.
pub proof fn coyote_time_ends(info: MoveInfo, landed: Frame, air: Seq<Frame>, late: Frame)
    requires
        landed.grounded,
        air.len() == COYOTE_TIME_TICKS - 1,
        forall|i: int| 0 <= i < air.len() ==> !(#[trigger] air[i]).grounded,
        !late.grounded,
    ensures
        !arms_boost(run(step(info, landed), air), late),
{
    set_counters_start_full(info, landed);
    coyote_window_off_ground(step(info, landed), air);
    let reached = run(step(info, landed), air);
    let start = Motion {
        info: refresh(reached, late.grounded),
        x: late.velocity.x as int,
        y: late.velocity.y as int,
        moved: false,
    };
    consumption_cuts(start, late.events);
}

/// The coyote window over a run of ticks off the ground: it falls by one
/// per tick.
proof fn coyote_window_off_ground(info: MoveInfo, frames: Seq<Frame>)
    requires
        info.coyote_time_ticks - frames.len() > isize::MIN,
        forall|i: int| 0 <= i < frames.len() ==> !(#[trigger] frames[i]).grounded,
    ensures
        run(info, frames).coyote_time_ticks == info.coyote_time_ticks - frames.len(),
    decreases frames.len(),
{
    if frames.len() > 0 {
        let rest = frames.drop_last();
        assert forall|i: int| 0 <= i < rest.len() implies !(#[trigger] rest[i]).grounded by {
            assert(rest[i] == frames[i]);
        }
        coyote_window_off_ground(info, rest);
        assert(!frames.last().grounded);
        untouched_counters_lose_one_tick(run(info, rest), frames.last());
    }
}

/// The jump request over a run of ticks without a press in which no jump
/// cut lands: it falls by one per tick.
proof fn request_without_press(info: MoveInfo, frames: Seq<Frame>)
    requires
        info.should_jump_ticks - frames.len() > isize::MIN,
        forall|i: int|
            0 <= i < frames.len() ==> no_cut_lands(#[trigger] frames[i]) && !presses_jump(
                frames[i].events,
            ),
    ensures
        run(info, frames).should_jump_ticks == info.should_jump_ticks - frames.len(),
    decreases frames.len(),
{
    if frames.len() > 0 {
        let rest = frames.drop_last();
        assert forall|i: int| 0 <= i < rest.len() implies no_cut_lands(#[trigger] rest[i])
            && !presses_jump(rest[i].events) by {
            assert(rest[i] == frames[i]);
        }
        request_without_press(info, rest);
        assert(no_cut_lands(frames.last()) && !presses_jump(frames.last().events));
        untouched_counters_lose_one_tick(run(info, rest), frames.last());
    }
}

/// The end of jump buffering. A jump requested in one tick and not again
/// has lapsed after `SHOULD_JUMP_TICKS - 1` further ticks: the tick after
/// them does not arm the boost, on the ground or off it, unless it brings a
/// press of its own.
pub proof fn jump_buffer_ends(info: MoveInfo, press: Frame, wait: Seq<Frame>, late: Frame)
    requires
        requests_jump(press),
        wait.len() == SHOULD_JUMP_TICKS - 1,
        forall|i: int|
            0 <= i < wait.len() ==> no_cut_lands(#[trigger] wait[i]) && !presses_jump(
                wait[i].events,
            ),
        no_cut_lands(late),
        !presses_jump(late.events),
    ensures
        !arms_boost(run(step(info, press), wait), late),
{
    set_counters_start_full(info, press);
    request_without_press(step(info, press), wait);
    let reached = run(step(info, press), wait);
    let start = Motion {
        info: refresh(reached, late.grounded),
        x: late.velocity.x as int,
        y: late.velocity.y as int,
        moved: false,
    };
    consumption_without_cut(start, late.events);
}

/// Jump buffering. A jump requested in one tick is armed by the first tick
/// on the ground among the next `SHOULD_JUMP_TICKS - 1`, provided that no
/// jump cut lands from the request to that tick: the tick on the ground
/// leaves the boost counter above zero and the vertical velocity at the jump
/// velocity.
pub proof fn jump_buffer(info: MoveInfo, press: Frame, wait: Seq<Frame>, land: Frame)
    requires
        requests_jump(press),
        wait.len() < SHOULD_JUMP_TICKS - 1,
        forall|i: int| 0 <= i < wait.len() ==> no_cut_lands(#[trigger] wait[i]),
        land.grounded,
        no_cut_lands(land),
    ensures
        step(run(step(info, press), wait), land).jump_boost_ticks == JUMP_BOOST_TICKS - 1,
        step_velocity(run(step(info, press), wait), land).y == per_tick(PLAYER_JUMP_VEL as int),
{
    set_counters_start_full(info, press);
    request_over_run(step(info, press), wait);
    let reached = run(step(info, press), wait);
    let start = Motion {
        info: refresh(reached, land.grounded),
        x: land.velocity.x as int,
        y: land.velocity.y as int,
        moved: false,
    };
    consumption_without_cut(start, land.events);
    consumption_cuts(start, land.events);
    armed_tick_jumps(reached, land);
}

} // verus!
