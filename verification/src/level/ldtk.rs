//! Levels as the level editor describes them.

use crate::app::{plain, App, Registration, Schedule, System};
use crate::level::camera::LevelBounds;
use crate::math::UNIT;
use crate::physics::Vec2;
use vstd::prelude::*;

pub mod collider;

verus! {

/// The systems of this module: in every frame the level that a player has
/// walked into becomes the selected one.
pub open spec fn systems() -> Seq<Registration> {
    seq![plain(Schedule::Update, System::UpdateLevelSelection)]
}

/// Enters the systems of this module into the plan.
pub fn plugin(app: &mut App)
    ensures
        final(app)@ == old(app)@ + systems(),
{
    let ghost before = app@;
    app.add_systems(
        Registration {
            schedule: Schedule::Update,
            system: System::UpdateLevelSelection,
            set: None,
            after: None,
            run_if: None,
        },
    );
    assert(app@ =~= before + systems());
}

/// Whether the point lies inside the level, its edges left out.
pub open spec fn inside(level: LevelBounds, point: Vec2) -> bool {
    &&& level.translation.x < point.x < level.translation.x + level.px_wid * UNIT
    &&& level.translation.y < point.y < level.translation.y + level.px_hei * UNIT
}

/// Decides whether a level becomes the selected one because of one player:
/// it does where the player stands inside it and it is not selected
/// already. `is_match` says whether the level is the selected one now.
pub fn update_level_selection(level: &LevelBounds, player: Vec2, is_match: bool) -> (select: bool)
    ensures
        select == (inside(*level, player) && !is_match),
{
    let unit = UNIT as i128;
    assert(unit == 1000);
    let max_x = level.translation.x as i128 + level.px_wid as i128 * unit;
    let max_y = level.translation.y as i128 + level.px_hei as i128 * unit;
    (player.x as i128) < max_x && player.x > level.translation.x && (player.y as i128) < max_y
        && player.y > level.translation.y && !is_match
}

} // verus!
