//! The fixed set of keys the camera controller recognizes.

use vstd::prelude::*;

verus! {

/// Which of the recognized keys are currently held.
///
/// Each field is true while the corresponding key is down. A front end
/// fills one of these from its input state once per tick and hands it to
/// [`crate::camera::CameraTransform::apply_held_keys`].
#[derive(Clone, Copy, Debug, PartialEq, Eq, Structural)]
pub struct HeldKeys {
    /// Left arrow: translate one unit along negative X.
    pub arrow_left: bool,
    /// Up arrow: translate one unit along positive Y.
    pub arrow_up: bool,
    /// Right arrow: translate one unit along positive X.
    pub arrow_right: bool,
    /// Down arrow: translate one unit along negative Y.
    pub arrow_down: bool,
    /// Right shift: zoom in, scaling by 999/1000.
    pub shift_right: bool,
    /// Left shift: zoom out, scaling by 1001/1000.
    pub shift_left: bool,
    /// Right super: rotate a tenth of a radian about Z.
    pub super_right: bool,
    /// Left super: rotate a negative tenth of a radian about Z.
    pub super_left: bool,
    /// Right alt: rotate a tenth of a radian about X.
    pub alt_right: bool,
    /// Left alt: rotate a negative tenth of a radian about X.
    pub alt_left: bool,
    /// Right bracket: rotate a tenth of a radian about Y.
    pub bracket_right: bool,
    /// Left bracket: rotate a negative tenth of a radian about Y.
    pub bracket_left: bool,
}

impl HeldKeys {
    /// True when no recognized key is held.
    pub open spec fn none_held(self) -> bool {
        &&& !self.arrow_left
        &&& !self.arrow_up
        &&& !self.arrow_right
        &&& !self.arrow_down
        &&& !self.shift_right
        &&& !self.shift_left
        &&& !self.super_right
        &&& !self.super_left
        &&& !self.alt_right
        &&& !self.alt_left
        &&& !self.bracket_right
        &&& !self.bracket_left
    }

    /// A key state with nothing held.
    pub fn none() -> (r: HeldKeys)
        ensures
            r.none_held(),
    {
        HeldKeys {
            arrow_left: false,
            arrow_up: false,
            arrow_right: false,
            arrow_down: false,
            shift_right: false,
            shift_left: false,
            super_right: false,
            super_left: false,
            alt_right: false,
            alt_left: false,
            bracket_right: false,
            bracket_left: false,
        }
    }
}

} // verus!
