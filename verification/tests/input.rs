use platformer_core::actors::player::input::{ActionState, ButtonState};
use platformer_core::actors::player::state::{keyboard_input, Action};

fn sample(direction: i64, jump: ButtonState, walk: ButtonState) -> Vec<Action> {
    let mut events = Vec::new();
    keyboard_input(&ActionState { direction, jump, walk }, &mut events);
    events
}

#[test]
fn idle_input_queues_nothing() {
    assert_eq!(sample(0, ButtonState::Released, ButtonState::Released), vec![]);
    assert_eq!(sample(0, ButtonState::Pressed, ButtonState::Pressed), vec![]);
}

#[test]
fn move_axis_is_level_triggered_past_the_dead_zone() {
    let up = ButtonState::Released;
    assert_eq!(sample(100, up, up), vec![]);
    assert_eq!(sample(-100, up, up), vec![]);
    assert_eq!(sample(101, up, up), vec![Action::Move(101)]);
    assert_eq!(sample(-101, up, up), vec![Action::Move(-101)]);
    assert_eq!(sample(1_000, up, up), vec![Action::Move(1_000)]);
}

#[test]
fn move_axis_is_held_to_full_deflection() {
    let up = ButtonState::Released;
    assert_eq!(sample(5_000, up, up), vec![Action::Move(1_000)]);
    assert_eq!(sample(i64::MIN, up, up), vec![Action::Move(-1_000)]);
    assert_eq!(sample(i64::MAX, up, up), vec![Action::Move(1_000)]);
}

#[test]
fn jump_is_edge_triggered() {
    let up = ButtonState::Released;
    assert_eq!(sample(0, ButtonState::JustPressed, up), vec![Action::Jump]);
    assert_eq!(sample(0, ButtonState::Pressed, up), vec![]);
    assert_eq!(sample(0, ButtonState::JustReleased, up), vec![Action::JumpCut]);
    assert_eq!(sample(0, ButtonState::Released, up), vec![]);
}

#[test]
fn walk_is_edge_triggered_with_its_state() {
    let up = ButtonState::Released;
    assert_eq!(sample(0, up, ButtonState::JustPressed), vec![Action::Walk(true)]);
    assert_eq!(sample(0, up, ButtonState::Pressed), vec![]);
    assert_eq!(sample(0, up, ButtonState::JustReleased), vec![Action::Walk(false)]);
}

#[test]
fn events_of_one_frame_come_in_order_behind_the_queue() {
    let mut events = vec![Action::Jump];
    keyboard_input(
        &ActionState {
            direction: -700,
            jump: ButtonState::JustReleased,
            walk: ButtonState::JustPressed,
        },
        &mut events,
    );
    assert_eq!(
        events,
        vec![Action::Jump, Action::Move(-700), Action::JumpCut, Action::Walk(true)]
    );
}
