use platformer_core::actors::player;
use platformer_core::actors::player::state::MoveInfo;
use platformer_core::actors::player::{step, steps, WallCaster};
use platformer_core::app::{App, Game, Registration, Schedule, System, Systems};
use platformer_core::cache::{restore, store, Cached};
use platformer_core::level;
use platformer_core::physics::{Dir2, LayerMask, LinearVelocity, Rectangle, Vec2};

#[test]
fn footsteps_sound_for_finished_timers_only() {
    let played = steps(&vec![7], &vec![(1, true), (2, false), (3, true)]);
    assert_eq!(played, vec![(1, 7), (3, 7)]);
}

#[test]
fn footsteps_come_from_the_tiles() {
    let tiles = vec![40, 41, 42];
    let walkers: Vec<(u64, bool)> = (0..64).map(|entity| (entity, entity % 2 == 0)).collect();
    let played = steps(&tiles, &walkers);
    assert_eq!(played.len(), 32);
    for (index, (entity, sound)) in played.iter().enumerate() {
        assert_eq!(*entity, 2 * index as u64);
        assert!(tiles.contains(sound));
    }
}

#[test]
fn no_tiles_no_footsteps() {
    assert_eq!(steps(&vec![], &vec![(1, true), (2, true)]), vec![]);
    assert_eq!(steps(&vec![5], &vec![]), vec![]);
}

#[test]
fn footstep_pairs_actor_and_sound() {
    assert_eq!(step(9, Some(3)), Some((9, 3)));
    assert_eq!(step(9, None), None);
}

#[test]
fn velocity_survives_a_pause_exactly() {
    let mut velocity = LinearVelocity { x: -12_345, y: 140_800 };
    let mut slot = None;
    store(&velocity, &mut slot);
    assert_eq!(slot.map(|Cached(kept)| kept), Some(velocity));
    velocity = LinearVelocity { x: 0, y: 0 };
    restore(&mut velocity, &mut slot);
    assert_eq!(velocity, LinearVelocity { x: -12_345, y: 140_800 });
    assert!(slot.is_none());
}

#[test]
fn restore_without_a_cache_changes_nothing() {
    let mut velocity = LinearVelocity { x: 1, y: 2 };
    let mut slot: Option<Cached<LinearVelocity>> = None;
    restore(&mut velocity, &mut slot);
    assert_eq!(velocity, LinearVelocity { x: 1, y: 2 });
    assert!(slot.is_none());
}

#[test]
fn store_overwrites_an_older_cache() {
    let mut slot = Some(Cached(LinearVelocity { x: 9, y: 9 }));
    store(&LinearVelocity { x: 1, y: 2 }, &mut slot);
    let mut velocity = LinearVelocity { x: 0, y: 0 };
    restore(&mut velocity, &mut slot);
    assert_eq!(velocity, LinearVelocity { x: 1, y: 2 });
}

fn position(app: &App, system: System) -> usize {
    app.systems.iter().position(|entry| entry.system == system).unwrap()
}

#[test]
fn player_plan_moves_after_grounding_in_the_fixed_tick() {
    let mut app = App::new();
    player::plugin(&mut app);
    assert_eq!(app.systems.len(), 7);
    let grounded = app.systems[position(&app, System::UpdateGrounded)];
    let movement = app.systems[position(&app, System::Movement)];
    assert_eq!(grounded.schedule, Schedule::FixedUpdate);
    assert_eq!(
        movement,
        Registration {
            schedule: Schedule::FixedUpdate,
            system: System::Movement,
            set: Some(Systems::Update),
            after: Some(System::UpdateGrounded),
            run_if: None,
        }
    );
    let input = app.systems[position(&app, System::KeyboardInput)];
    assert_eq!(input.schedule, Schedule::Update);
    assert_eq!(input.set, Some(Systems::Input));
}

#[test]
fn player_plan_keeps_velocity_over_a_pause() {
    let mut app = App::new();
    player::state::plugin(&mut app);
    assert_eq!(app.systems.len(), 5);
    let store = app.systems[position(&app, System::StoreVelocity)];
    let restore = app.systems[position(&app, System::RestoreVelocity)];
    assert_eq!(store.schedule, Schedule::OnExit(Game::Gameplay));
    assert_eq!(restore.schedule, Schedule::OnEnter(Game::Gameplay));
}

#[test]
fn footsteps_run_during_gameplay_only() {
    let mut app = App::new();
    player::plugin(&mut app);
    let steps = app.systems[position(&app, System::Steps)];
    assert_eq!(steps.run_if, Some(Game::Gameplay));
    assert_eq!(steps.set, Some(Systems::Spawn));
    let spawn = app.systems[position(&app, System::SpawnPlayer)];
    assert_eq!(spawn.run_if, None);
}

#[test]
fn level_plan_holds_camera_selection_and_ground_contact() {
    let mut app = App::new();
    level::plugin(&mut app);
    let systems: Vec<System> = app.systems.iter().map(|entry| entry.system).collect();
    assert_eq!(
        systems,
        vec![
            System::CameraFitCurrentLevel,
            System::UpdateLevelSelection,
            System::SpawnSensor,
            System::Detection,
            System::GroundUpdate,
        ]
    );
    assert!(app.systems.iter().all(|entry| entry.schedule == Schedule::Update));
    assert!(app.systems.iter().all(|entry| entry.set.is_none() && entry.after.is_none()));
}

#[test]
fn spawned_actor_has_a_probe_below_and_on_either_side() {
    let fittings = player::spawn();
    assert_eq!(fittings.info, MoveInfo::default());
    assert_eq!(fittings.collider, Rectangle { x_length: 12_000, y_length: 16_000 });
    assert_eq!(fittings.collider_offset, Vec2 { x: 0, y: -2_000 });
    assert!(fittings.memberships.player_collider);
    assert!(!fittings.memberships.terrain && !fittings.memberships.platform);
    assert_eq!(fittings.filters, LayerMask { player_collider: false, terrain: true, platform: true });
    assert_eq!((fittings.friction, fittings.restitution), (0, 0));
    assert_eq!(fittings.time_between_steps, 500);

    let ground = fittings.ground_caster;
    assert_eq!(ground.shape, Rectangle { x_length: 11_800, y_length: 500 });
    assert_eq!(ground.origin, Vec2 { x: 0, y: -9_750 });
    assert_eq!(ground.direction, Dir2::NegY);
    assert_eq!(ground.mask, fittings.filters);

    assert_eq!(fittings.wall_casters.len(), 2);
    let (left_side, left) = fittings.wall_casters[0];
    let (right_side, right) = fittings.wall_casters[1];
    assert_eq!((left_side, right_side), (WallCaster::Left, WallCaster::Right));
    assert_eq!(left, WallCaster::Left.shape_caster());
    assert_eq!(right, WallCaster::Right.shape_caster());
    assert_eq!(left.origin, Vec2 { x: -6_750, y: -1_750 });
    assert_eq!(right.origin, Vec2 { x: 6_750, y: -1_750 });
    assert_eq!((left.direction, right.direction), (Dir2::NegX, Dir2::X));
    for caster in [ground, left, right] {
        assert_eq!(caster.max_distance, 500);
        assert_eq!(caster.max_hits, 8);
    }
    for caster in [left, right] {
        assert_eq!(caster.shape, Rectangle { x_length: 500, y_length: 10_000 });
        assert_eq!(caster.mask, LayerMask { player_collider: false, terrain: true, platform: false });
    }
}

#[test]
fn plans_append() {
    let mut app = App::new();
    level::ground::plugin(&mut app);
    player::plugin(&mut app);
    assert_eq!(app.systems.len(), 10);
    assert_eq!(app.systems[0].system, System::SpawnSensor);
    assert_eq!(app.systems[3].system, System::UpdateGrounded);
    level::camera::plugin(&mut app);
    level::ldtk::plugin(&mut app);
    assert_eq!(app.systems.len(), 12);
    assert_eq!(app.systems[10].system, System::CameraFitCurrentLevel);
    assert_eq!(app.systems[11].system, System::UpdateLevelSelection);
}
