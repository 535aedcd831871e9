//! Lengths in twips, twentieths of a pixel.

use vstd::prelude::*;

verus! {

/// Half a pixel, in twips.
pub const HALF_PIXEL: i32 = 10;

/// `swf::Twips` addition of `Twips::HALF_PX` to a length given in twips. A pixel is 20
/// twips, so half a pixel is 10; the sum is that of the two `i32` values, which must
/// fit.
#[verifier::external_body]
pub(crate) fn add_half_pixel(twips: i32) -> (moved: i32)
    requires
        twips + HALF_PIXEL <= i32::MAX,
    ensures
        moved == twips + HALF_PIXEL,
{
    (swf::Twips::new(twips) + swf::Twips::HALF_PX).get()
}

} // verus!
