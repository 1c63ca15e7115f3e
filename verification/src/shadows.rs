//! Whether shadows are drawn: they are while a turning gesture goes on.

use vstd::prelude::*;

verus! {

/// Whether shadows are drawn.
#[derive(PartialEq, Eq, Structural, Clone, Copy, Debug)]
pub struct ShowShadows(pub bool);

/// Turns the shadows on where a turning gesture has begun.
pub fn create_shadows(gesture_added: bool, show_shadows: &mut ShowShadows)
    ensures
        final(show_shadows).0 == (gesture_added || old(show_shadows).0),
{
    if !gesture_added {
        return ;
    }
    show_shadows.0 = true;
}

/// Turns the shadows off where a turning gesture has ended and none is
/// left.
pub fn remove_shadows(gesture_removed: bool, gestures_left: usize, show_shadows: &mut ShowShadows)
    ensures
        final(show_shadows).0 == (old(show_shadows).0 && !(gesture_removed && gestures_left == 0)),
{
    if gesture_removed && gestures_left == 0 {
        show_shadows.0 = false;
    }
}

} // verus!
