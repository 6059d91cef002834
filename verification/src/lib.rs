//! An ambient particle animation engine: a brightness field derived from
//! raster content drives the vertical speed of a fixed population of
//! particles, which wrap from the bottom edge back to the top.
//!
//! All positions, speeds and opacities are carried in thousandths
//! (milli-units), so every quantity is an exact integer.

use vstd::prelude::*;

pub mod animation;
pub mod brightness;
pub mod particle;
mod rng;
pub mod source;

verus! {

/// Bounds on a surface's pixel dimensions under which every milli-unit
/// quantity in the library fits comfortably in a `u64`.
pub open spec fn dims_ok(width: nat, height: nat) -> bool {
    &&& 0 < width <= 0x7fff_ffff
    &&& 0 < height <= 0x7fff_ffff
}

} // verus!

