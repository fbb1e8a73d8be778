use platformer_core::level::camera::{
    camera_fit_current_level, CameraError, LevelBounds, OrthographicProjection, Projection,
    ScalingMode,
};
use platformer_core::level::ldtk::collider::{
    ColliderBundle, EntityInstance, Friction, IntGridCell, RigidBody, SensorBundle,
};
use platformer_core::level::ldtk::update_level_selection;
use platformer_core::physics::{Rectangle, Vec2};

fn camera() -> (Projection, Vec2) {
    (
        Projection::Orthographic(OrthographicProjection {
            viewport_origin: Vec2 { x: 500, y: 500 },
            scaling_mode: ScalingMode::WindowSize,
        }),
        Vec2 { x: -1, y: -1 },
    )
}

fn level(x: i64, y: i64, px_wid: u32, px_hei: u32) -> LevelBounds {
    LevelBounds { translation: Vec2 { x, y }, px_wid, px_hei }
}

fn fit(player: Vec2, levels: &[(LevelBounds, bool)]) -> (Projection, Vec2) {
    let (mut projection, mut translation) = camera();
    let result =
        camera_fit_current_level(&mut projection, &mut translation, player, &levels.to_vec());
    assert_eq!(result, Ok(()));
    (projection, translation)
}

fn fixed(width: i64, height: i64) -> Projection {
    Projection::Orthographic(OrthographicProjection {
        viewport_origin: Vec2 { x: 0, y: 0 },
        scaling_mode: ScalingMode::Fixed { width, height },
    })
}

#[test]
fn wide_level_is_framed_by_its_height() {
    let wide = level(0, 0, 3_200, 900);
    let (projection, at) = fit(Vec2 { x: 2_000_000, y: 100_000 }, &[(wide, true)]);
    assert_eq!(projection, fixed(1_600_000, 900_000));
    assert_eq!(at, Vec2 { x: 1_200_000, y: 0 });
}

#[test]
fn camera_stays_within_a_wide_level() {
    let wide = level(10_000, 20_000, 3_200, 900);
    let (_, at) = fit(Vec2 { x: 100_000, y: 0 }, &[(wide, true)]);
    assert_eq!(at, Vec2 { x: 10_000, y: 20_000 });
    let (_, at) = fit(Vec2 { x: 9_000_000, y: 0 }, &[(wide, true)]);
    assert_eq!(at, Vec2 { x: 10_000 + 1_600_000, y: 20_000 });
}

#[test]
fn tall_level_is_framed_by_its_width() {
    let tall = level(0, 0, 1_600, 1_800);
    let (projection, at) = fit(Vec2 { x: 100_000, y: 1_000_000 }, &[(tall, true)]);
    assert_eq!(projection, fixed(1_600_000, 900_000));
    assert_eq!(at, Vec2 { x: 0, y: 550_000 });
    let (_, at) = fit(Vec2 { x: 100_000, y: 5_000_000 }, &[(tall, true)]);
    assert_eq!(at, Vec2 { x: 0, y: 900_000 });
}

#[test]
fn level_of_the_screens_ratio_counts_as_tall() {
    let even = level(0, 0, 1_600, 900);
    let (projection, at) = fit(Vec2 { x: 800_000, y: 450_000 }, &[(even, true)]);
    assert_eq!(projection, fixed(1_600_000, 900_000));
    assert_eq!(at, Vec2 { x: 0, y: 0 });
}

#[test]
fn frame_is_rounded_to_the_aspect_ratio() {
    // 904 is nearest to 900, 895 to 891 and 896 to 900.
    let (projection, _) = fit(Vec2 { x: 0, y: 0 }, &[(level(0, 0, 3_200, 904), true)]);
    assert_eq!(projection, fixed(1_600_000, 900_000));
    let (projection, _) = fit(Vec2 { x: 0, y: 0 }, &[(level(0, 0, 3_200, 895), true)]);
    assert_eq!(projection, fixed(1_584_000, 891_000));
    let (projection, _) = fit(Vec2 { x: 0, y: 0 }, &[(level(0, 0, 3_200, 896), true)]);
    assert_eq!(projection, fixed(1_600_000, 900_000));
    // 1608 lies midway between 1600 and 1616: the upper one.
    let (projection, _) = fit(Vec2 { x: 0, y: 0 }, &[(level(0, 0, 1_608, 2_000), true)]);
    assert_eq!(projection, fixed(1_616_000, 909_000));
}

#[test]
fn only_the_selected_level_is_framed() {
    let (projection, at) = fit(Vec2 { x: 0, y: 0 }, &[(level(0, 0, 3_200, 900), false)]);
    assert_eq!((projection, at), camera());
    let (projection, at) = fit(Vec2 { x: 0, y: 0 }, &[]);
    assert_eq!((projection, at), camera());
    let (projection, at) = fit(
        Vec2 { x: 0, y: 0 },
        &[(level(0, 0, 3_200, 900), true), (level(7_000, 0, 160, 900), false)],
    );
    assert_eq!(projection, fixed(1_600_000, 900_000));
    assert_eq!(at, Vec2 { x: 0, y: 0 });
}

#[test]
fn perspective_camera_is_refused_and_left_alone() {
    let mut projection = Projection::Perspective;
    let mut translation = Vec2 { x: 3, y: 4 };
    let result = camera_fit_current_level(
        &mut projection,
        &mut translation,
        Vec2 { x: 0, y: 0 },
        &vec![(level(0, 0, 3_200, 900), true)],
    );
    assert_eq!(result, Err(CameraError::NonOrthographic));
    assert_eq!(projection, Projection::Perspective);
    assert_eq!(translation, Vec2 { x: 3, y: 4 });
    assert_eq!(CameraError::NonOrthographic.message(), "non-orthographic projection found");
}

#[test]
fn player_inside_an_unselected_level_selects_it() {
    let here = level(1_000, 2_000, 10, 20);
    assert!(update_level_selection(&here, Vec2 { x: 5_000, y: 5_000 }, false));
    assert!(!update_level_selection(&here, Vec2 { x: 5_000, y: 5_000 }, true));
}

#[test]
fn edges_of_a_level_are_outside() {
    let here = level(1_000, 2_000, 10, 20);
    assert!(update_level_selection(&here, Vec2 { x: 1_001, y: 2_001 }, false));
    assert!(update_level_selection(&here, Vec2 { x: 10_999, y: 21_999 }, false));
    assert!(!update_level_selection(&here, Vec2 { x: 1_000, y: 5_000 }, false));
    assert!(!update_level_selection(&here, Vec2 { x: 11_000, y: 5_000 }, false));
    assert!(!update_level_selection(&here, Vec2 { x: 5_000, y: 2_000 }, false));
    assert!(!update_level_selection(&here, Vec2 { x: 5_000, y: 22_000 }, false));
    let far = level(i64::MAX - 5, i64::MAX - 5, u32::MAX, u32::MAX);
    assert!(update_level_selection(&far, Vec2 { x: i64::MAX, y: i64::MAX }, false));
}

fn bundle(identifier: &str) -> ColliderBundle {
    ColliderBundle::from(&EntityInstance { identifier: identifier.to_string() })
}

#[test]
fn player_entity_is_a_frictionless_dynamic_box() {
    assert_eq!(
        bundle("Player"),
        ColliderBundle {
            collider: Some(Rectangle { x_length: 12_000, y_length: 28_000 }),
            rigid_body: Some(RigidBody::Dynamic),
            rotation_locked: true,
            gravity_scale: None,
            friction: Friction::Frictionless,
            density: None,
        }
    );
}

#[test]
fn mob_entity_is_a_kinematic_box() {
    assert_eq!(
        bundle("Mob"),
        ColliderBundle {
            collider: Some(Rectangle { x_length: 10_000, y_length: 10_000 }),
            rigid_body: Some(RigidBody::Kinematic),
            rotation_locked: true,
            gravity_scale: None,
            friction: Friction::Unset,
            density: None,
        }
    );
}

#[test]
fn chest_entity_is_a_heavy_dynamic_box() {
    assert_eq!(
        bundle("Chest"),
        ColliderBundle {
            collider: Some(Rectangle { x_length: 16_000, y_length: 16_000 }),
            rigid_body: Some(RigidBody::Dynamic),
            rotation_locked: true,
            gravity_scale: Some(1_000),
            friction: Friction::Uniform(500),
            density: Some(15_000),
        }
    );
}

#[test]
fn other_entities_are_left_to_the_engine() {
    for identifier in ["", "player", "Players", "Brick"] {
        assert_eq!(bundle(identifier), ColliderBundle::default());
    }
    assert_eq!(ColliderBundle::default().collider, None);
    assert!(!ColliderBundle::default().rotation_locked);
}

#[test]
fn ladder_cells_sense_as_one_tile() {
    assert_eq!(
        SensorBundle::from(IntGridCell { value: 2 }),
        SensorBundle {
            collider: Some(Rectangle { x_length: 16_000, y_length: 16_000 }),
            rotation_locked: true,
        }
    );
    for value in [0, 1, 3, -2] {
        assert_eq!(SensorBundle::from(IntGridCell { value }), SensorBundle::default());
    }
}
