//! A minimal standalone fragment stage: depth-based dimming of the
//! fragment's own color, returning the fragment with its color
//! rewritten and every other attribute untouched.

use vstd::prelude::*;
use crate::fixed::{fx_clamp, fx_mul, fx_sub};
use crate::fragment::{fragment_ok, Fragment};
use crate::shader::spec_brightness;
use crate::color::spec_color_scale;

verus! {

/// Dim the fragment's color by the shared depth brightness factor.
pub fn fragment_shader(fragment: &Fragment) -> (f: Fragment)
    requires
        fragment_ok(*fragment),
    ensures
        f == (Fragment {
            color: spec_color_scale(
                fragment.color,
                spec_brightness(fragment.depth as int),
            ),
            ..*fragment
        }),
        fragment_ok(f),
{
    let brightness = fx_clamp(fx_sub(65536, fx_mul(fragment.depth, 32768)), 0, 65536);
    let new_color = fragment.color.scale(brightness);
    Fragment { color: new_color, ..*fragment }
}

} // verus!
