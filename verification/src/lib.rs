//! Animated Julia-set frame generation: the integer core.
//!
//! The library owns everything about a frame that can be stated exactly:
//! the escape-count-to-color mapping, the iteration-depth choice, and the
//! assembly of a full pixel buffer from the escape counts of the top half
//! of the plane (mirrored writes, the diagnostic marker, and the buffer's
//! fixed geometry). The floating-point escape-time iteration that produces
//! the counts runs outside the library and hands them in as plain bytes.
use vstd::prelude::*;

pub mod color;
pub mod frame;

verus! {

/// Width of the pixel buffer, in pixels.
pub const WIDTH: usize = 360;

/// Height of the pixel buffer, in pixels.
pub const HEIGHT: usize = 270;

/// Total number of pixels in one frame.
pub const AREA: usize = WIDTH * HEIGHT;

/// Number of pixels in the top half of the frame: the half that is
/// computed directly; the bottom half is mirrored from it.
pub const HALF_AREA: usize = WIDTH * (HEIGHT / 2);

} // verus!
