//! Framing the current level: which part of it the camera shows.

use crate::app::{plain, App, Registration, Schedule, System};
use crate::math::{clamp, clamp_wide, Scalar, UNIT};
use crate::physics::Vec2;
use vstd::prelude::*;

verus! {

/// The width of the screen's aspect ratio.
pub const ASPECT_WIDTH: u64 = 16;

/// The height of the screen's aspect ratio.
pub const ASPECT_HEIGHT: u64 = 9;

/// A level of the world: where its lower left corner lies, and its size in
/// pixels.
#[derive(Clone, Copy, Debug, PartialEq, Eq, Structural)]
pub struct LevelBounds {
    pub translation: Vec2,
    pub px_wid: u32,
    pub px_hei: u32,
}

/// How a projection sizes what it shows.
#[derive(Clone, Copy, Debug, PartialEq, Eq, Structural)]
pub enum ScalingMode {
    /// As the window is.
    WindowSize,
    /// A frame of this size, whatever the window.
    Fixed { width: Scalar, height: Scalar },
}

/// A projection without perspective.
#[derive(Clone, Copy, Debug, PartialEq, Eq, Structural)]
pub struct OrthographicProjection {
    pub viewport_origin: Vec2,
    pub scaling_mode: ScalingMode,
}

/// The projection of a camera.
#[derive(Clone, Copy, Debug, PartialEq, Eq, Structural)]
pub enum Projection {
    Perspective,
    Orthographic(OrthographicProjection),
}

/// The camera cannot frame a level.
#[derive(Clone, Copy, Debug, PartialEq, Eq, Structural)]
pub enum CameraError {
    /// Its projection has perspective.
    NonOrthographic,
}

impl CameraError {
    /// The error in words.
    pub fn message(&self) -> (text: String)
        ensures
            text@ == "non-orthographic projection found"@,
    {
        "non-orthographic projection found".to_owned()
    }
}

/// The systems of this module: in every frame the camera frames the current
/// level.
pub open spec fn systems() -> Seq<Registration> {
    seq![plain(Schedule::Update, System::CameraFitCurrentLevel)]
}

/// Enters the systems of this module into the plan.
pub fn plugin(app: &mut App)
    ensures
        final(app)@ == old(app)@ + systems(),
{
    let ghost before = app@;
    app.add_systems(
        Registration {
            schedule: Schedule::Update,
            system: System::CameraFitCurrentLevel,
            set: None,
            after: None,
            run_if: None,
        },
    );
    assert(app@ =~= before + systems());
}

/// The multiple of `unit` nearest to `px`, the upper one where two are
/// equally near.
pub open spec fn nearest_multiple(px: int, unit: int) -> int {
    (2 * px + unit) / (2 * unit) * unit
}

/// Whether the level is wider than the screen, by its aspect ratio.
pub open spec fn wider_than_screen(level: LevelBounds) -> bool {
    level.px_wid * ASPECT_HEIGHT > level.px_hei * ASPECT_WIDTH
}

/// The size in pixels of the frame that shows the level: as high as a level
/// that is wider than the screen, as wide as any other, to the nearest
/// multiple of the aspect ratio's part, and in the screen's aspect ratio.
pub open spec fn frame(level: LevelBounds) -> (int, int) {
    if wider_than_screen(level) {
        let height = nearest_multiple(level.px_hei as int, ASPECT_HEIGHT as int);
        (height / (ASPECT_HEIGHT as int) * ASPECT_WIDTH, height)
    } else {
        let width = nearest_multiple(level.px_wid as int, ASPECT_WIDTH as int);
        (width, width / (ASPECT_WIDTH as int) * ASPECT_HEIGHT)
    }
}

/// Whether the frame lies within the level along the axis on which the
/// camera follows the player.
pub open spec fn frame_fits(level: LevelBounds) -> bool {
    if wider_than_screen(level) {
        frame(level).0 <= level.px_wid
    } else {
        frame(level).1 <= level.px_hei
    }
}

/// Whether the level's far corner is a point of the plane.
pub open spec fn within_plane(level: LevelBounds) -> bool {
    &&& level.translation.x + level.px_wid * UNIT <= Scalar::MAX
    &&& level.translation.y + level.px_hei * UNIT <= Scalar::MAX
}

/// Where the camera stands to frame the level around the player: along the
/// axis on which the level exceeds the screen it is centred on the player as
/// far as the frame stays within the level; along the other it stands at the
/// level's edge.
pub open spec fn framing(level: LevelBounds, player: Vec2) -> Vec2 {
    let (width, height) = frame(level);
    if wider_than_screen(level) {
        Vec2 {
            x: (clamp(
                player.x - level.translation.x - width * UNIT / 2,
                0,
                (level.px_wid - width) * UNIT,
            ) + level.translation.x) as Scalar,
            y: level.translation.y,
        }
    } else {
        Vec2 {
            x: level.translation.x,
            y: (clamp(
                player.y - level.translation.y - height * UNIT / 2,
                0,
                (level.px_hei - height) * UNIT,
            ) + level.translation.y) as Scalar,
        }
    }
}

/// The projection that frames the level.
pub open spec fn framing_projection(level: LevelBounds) -> OrthographicProjection {
    OrthographicProjection {
        viewport_origin: Vec2 { x: 0, y: 0 },
        scaling_mode: ScalingMode::Fixed {
            width: (frame(level).0 * UNIT) as Scalar,
            height: (frame(level).1 * UNIT) as Scalar,
        },
    }
}

/// The camera after it has framed every selected level among `levels`, in
/// their order: it stays on the last.
pub open spec fn fitted(
    camera: (OrthographicProjection, Vec2),
    player: Vec2,
    levels: Seq<(LevelBounds, bool)>,
) -> (OrthographicProjection, Vec2)
    decreases levels.len(),
{
    if levels.len() == 0 {
        camera
    } else if levels.last().1 {
        (framing_projection(levels.last().0), framing(levels.last().0, player))
    } else {
        fitted(camera, player, levels.drop_last())
    }
}

/// The frame of a level, in pixels.
fn frame_of(level: LevelBounds) -> (size: (u64, u64))
    ensures
        size.0 == frame(level).0,
        size.1 == frame(level).1,
        size.0 % 2 == 0 || size.1 % 2 == 0,
        wider_than_screen(level) ==> size.0 % 2 == 0,
        !wider_than_screen(level) ==> size.0 % 16 == 0 && size.1 == size.0 / 16 * 9,
        size.0 <= 0x4_0000_0000,
        size.1 <= 0x4_0000_0000,
{
    let wid = level.px_wid as u64;
    let hei = level.px_hei as u64;
    if wid * ASPECT_HEIGHT > hei * ASPECT_WIDTH {
        let rows = (2 * hei + ASPECT_HEIGHT) / (2 * ASPECT_HEIGHT);
        assert(rows == (2 * hei + 9) / 18);
        let height = rows * ASPECT_HEIGHT;
        assert(height / 9 == rows);
        (height / ASPECT_HEIGHT * ASPECT_WIDTH, height)
    } else {
        let columns = (2 * wid + ASPECT_WIDTH) / (2 * ASPECT_WIDTH);
        assert(columns == (2 * wid + 16) / 32);
        let width = columns * ASPECT_WIDTH;
        assert(width / 16 == columns);
        (width, width / ASPECT_WIDTH * ASPECT_HEIGHT)
    }
}

/// Whether the camera can frame the level: the frame lies within it and its
/// far corner is a point of the plane.
pub fn can_frame(level: &LevelBounds) -> (ok: bool)
    ensures
        ok == (frame_fits(*level) && within_plane(*level)),
{
    let (width, height) = frame_of(*level);
    let unit = UNIT as i128;
    assert(unit == 1000);
    let fits = if level.px_wid as u64 * ASPECT_HEIGHT > level.px_hei as u64 * ASPECT_WIDTH {
        width <= level.px_wid as u64
    } else {
        height <= level.px_hei as u64
    };
    fits && level.translation.x as i128 + level.px_wid as i128 * unit <= Scalar::MAX as i128
        && level.translation.y as i128 + level.px_hei as i128 * unit <= Scalar::MAX as i128
}

/// Where the camera stands along one axis: centred on the player as far as
/// the frame stays within the level.
fn follow(player: Scalar, level: Scalar, frame: u64, px: u32) -> (at: Scalar)
    requires
        frame <= px,
        level + px * UNIT <= Scalar::MAX,
        frame * UNIT % 2 == 0,
    ensures
        at == clamp(player - level - frame * UNIT / 2, 0, (px - frame) * UNIT) + level,
{
    let half = (frame as i128 * UNIT as i128) / 2;
    let room = (px as u64 - frame) as i64 * UNIT;
    clamp_wide(player as i128 - level as i128 - half, 0, room) + level
}

/// Frames the current level: sets the projection to a fixed frame in the
/// screen's aspect ratio, and puts the camera where that frame shows the
/// player within the level. `levels` holds every spawned level, each with
/// whether it is the selected one.
///
/// A camera whose projection has perspective is left as it is, and the
/// error says so. Every selected level must be one that [`can_frame`]
/// accepts.
pub fn camera_fit_current_level(
    projection: &mut Projection,
    camera_translation: &mut Vec2,
    player_translation: Vec2,
    levels: &Vec<(LevelBounds, bool)>,
) -> (result: Result<(), CameraError>)
    requires
        forall|i: int|
            0 <= i < levels@.len() && (#[trigger] levels@[i]).1 ==> frame_fits(levels@[i].0)
                && within_plane(levels@[i].0),
    ensures
        match *old(projection) {
            Projection::Perspective => {
                &&& result == Err::<(), CameraError>(CameraError::NonOrthographic)
                &&& *final(projection) == *old(projection)
                &&& *final(camera_translation) == *old(camera_translation)
            },
            Projection::Orthographic(orthographic) => {
                &&& result == Ok::<(), CameraError>(())
                &&& (*final(projection), *final(camera_translation)) == ({
                    let camera = fitted(
                        (orthographic, *old(camera_translation)),
                        player_translation,
                        levels@,
                    );
                    (Projection::Orthographic(camera.0), camera.1)
                })
            },
        },
{
    let mut orthographic = match *projection {
        Projection::Orthographic(orthographic) => orthographic,
        Projection::Perspective => {
            return Err(CameraError::NonOrthographic);
        },
    };
    let ghost before = (orthographic, *camera_translation);
    let mut i: usize = 0;
    while i < levels.len()
        invariant
            i <= levels.len(),
            forall|k: int|
                0 <= k < levels@.len() && (#[trigger] levels@[k]).1 ==> frame_fits(levels@[k].0)
                    && within_plane(levels@[k].0),
            (orthographic, *camera_translation) == fitted(
                before,
                player_translation,
                levels@.take(i as int),
            ),
        decreases levels.len() - i,
    {
        proof {
            assert(levels@.take(i + 1).drop_last() == levels@.take(i as int));
        }
        let (level, selected) = levels[i];
        if selected {
            let (width, height) = frame_of(level);
            orthographic.viewport_origin = Vec2 { x: 0, y: 0 };
            orthographic.scaling_mode = ScalingMode::Fixed {
                width: width as i64 * UNIT,
                height: height as i64 * UNIT,
            };
            if level.px_wid as u64 * ASPECT_HEIGHT > level.px_hei as u64 * ASPECT_WIDTH {
                camera_translation.x = follow(
                    player_translation.x,
                    level.translation.x,
                    width,
                    level.px_wid,
                );
                camera_translation.y = level.translation.y;
            } else {
                camera_translation.y = follow(
                    player_translation.y,
                    level.translation.y,
                    height,
                    level.px_hei,
                );
                camera_translation.x = level.translation.x;
            }
        }
        i += 1;
    }
    proof {
        assert(levels@.take(i as int) == levels@);
    }
    *projection = Projection::Orthographic(orthographic);
    Ok(())
}

} // verus!
