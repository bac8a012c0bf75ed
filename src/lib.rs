//! An interactive screen-region capture engine: the selection state machine,
//! the redraw throttle, the pixel decoding and the output path rules.
use vstd::prelude::*;

pub mod geometry;
pub mod pixels;
pub mod throttle;
pub mod selection;
pub mod output_path;

verus! {

/// The width, in pixels, of the selection outline.
pub const LINE_WIDTH: i32 = 5;

/// The colour of the selection outline.
pub fn line_colour() -> (c: geometry::RGB)
    ensures
        c == (geometry::RGB { r: 128, g: 0, b: 128 }),
{
    geometry::RGB::new(128, 0, 128)
}

} // verus!
