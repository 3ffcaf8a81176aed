//! Shared color constants.

use vstd::prelude::*;
use crate::ui::Color;

verus! {

/// The background the first render pass clears the frame to.
pub open spec fn spec_light_gray_gpu() -> Color {
    Color { r: 384_000, g: 396_000, b: 412_000, a: 1_000_000 }
}

pub fn light_gray_gpu() -> (c: Color)
    ensures
        c == spec_light_gray_gpu(),
{
    Color { r: 384_000, g: 396_000, b: 412_000, a: 1_000_000 }
}

/// The fill used by dark UI panels.
pub open spec fn spec_dark_gray_ui() -> Color {
    Color { r: 224_000, g: 239_000, b: 278_000, a: 1_000_000 }
}

pub fn dark_gray_ui() -> (c: Color)
    ensures
        c == spec_dark_gray_ui(),
{
    Color { r: 224_000, g: 239_000, b: 278_000, a: 1_000_000 }
}

} // verus!
