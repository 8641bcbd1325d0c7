//! A debug control that lets players change the wind direction at runtime.

use vstd::prelude::*;

verus! {

use crate::fixed::spec_scale_mul;
use crate::fixed::scale_mul;
use crate::resources::Wind;
use crate::vectors::Vec2;

/// Cosine of an eighth pi, in fixed-point steps of one.
pub const ROTATION_COS: i64 = 923_880;

/// Sine of an eighth pi, in fixed-point steps of one.
pub const ROTATION_SIN: i64 = 382_683;

/// The x coordinate of `w` turned counter-clockwise by an eighth pi, in
/// fixed-point arithmetic.
pub open spec fn spec_rotated_x(w: Vec2) -> int {
    spec_scale_mul(w.x as int, ROTATION_COS as int) - spec_scale_mul(
        w.y as int,
        ROTATION_SIN as int,
    )
}

/// The y coordinate of `w` turned counter-clockwise by an eighth pi, in
/// fixed-point arithmetic.
pub open spec fn spec_rotated_y(w: Vec2) -> int {
    spec_scale_mul(w.x as int, ROTATION_SIN as int) + spec_scale_mul(
        w.y as int,
        ROTATION_COS as int,
    )
}

/// Lets players change the wind direction at runtime: the wind turns
/// counter-clockwise by an eighth pi every time the change-wind-direction
/// input action is invoked. The speed of the wind stays as close to
/// unchanged as fixed-point arithmetic allows.
#[derive(Clone, Copy, Debug, PartialEq, Eq, Structural)]
pub struct DebugWindControlSystem;

impl DebugWindControlSystem {
    /// Reacts to one named input action. Only the change-wind-direction
    /// action does anything: it turns the wind counter-clockwise by an
    /// eighth pi. Any other action leaves the wind alone.
    pub fn handle_action(&self, action: &str, wind: &mut Wind)
        requires
            old(wind).wf(),
        ensures
            action@ == "ChangeWindDirection"@ ==> final(wind).wind.x == spec_rotated_x(
                old(wind).wind,
            ) && final(wind).wind.y == spec_rotated_y(old(wind).wind),
            action@ != "ChangeWindDirection"@ ==> *final(wind) == *old(wind),
    {
        let requested = action.to_owned();
        let change_wind = "ChangeWindDirection".to_owned();
        if requested == change_wind {
            let x: i64 = wind.wind.x;
            let y: i64 = wind.wind.y;
            wind.wind.x = scale_mul(x, ROTATION_COS) - scale_mul(y, ROTATION_SIN);
            wind.wind.y = scale_mul(x, ROTATION_SIN) + scale_mul(y, ROTATION_COS);
        }
    }
}

impl Default for DebugWindControlSystem {
    fn default() -> (r: Self)
        ensures
            r == (DebugWindControlSystem),
    {
        DebugWindControlSystem
    }
}

} // verus!
