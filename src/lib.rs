//! Decision logic of a spherical-Earth navigation toolkit.
//!
//! The trigonometry itself runs on floating point and lives outside the
//! verified part. What is verified here are the discrete choices that the
//! geometry makes: how an angle is folded into the range of a direction,
//! which of two antipodal or symmetric candidates is reported,
//! how an azimuth is reconstructed from the signs of a Cartesian vector, which
//! axis ordering the small-circle solver eliminates with, and how a bounding
//! box around a point treats the poles and the antimeridian. Each takes the
//! outcome of the floating-point comparisons as `Option<Ordering>` (what
//! `partial_cmp` returns, `None` standing for an unordered, NaN operand).
use vstd::prelude::*;

pub mod angle;
pub mod bounds;
pub mod choice;
pub mod frame;
pub mod permutation;

verus! {

/// Which angular-difference convention a caller wants.
#[derive(Clone, Copy, Debug, PartialEq, Eq, Structural)]
pub enum Direction {
    /// Anticlockwise only: a difference in (-360°, 0°].
    Left,
    /// Clockwise only: a difference in [0°, 360°).
    Right,
    /// Signed shortest path: a difference in (-180°, 180°].
    Either,
}

} // verus!
