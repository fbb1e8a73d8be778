//! What a level holds besides its actors.

use crate::app::{App, Registration};
use vstd::prelude::*;

pub mod camera;
pub mod ground;
pub mod ldtk;

verus! {

/// The systems of a level: those of the camera, of level selection and of
/// ground contact.
pub open spec fn systems() -> Seq<Registration> {
    camera::systems() + ldtk::systems() + ground::systems()
}

/// Enters the systems of a level into the plan.
pub fn plugin(app: &mut App)
    ensures
        final(app)@ == old(app)@ + systems(),
{
    let ghost before = app@;
    camera::plugin(app);
    ldtk::plugin(app);
    ground::plugin(app);
    assert(app@ =~= before + systems());
}

} // verus!
