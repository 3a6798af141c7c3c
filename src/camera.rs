use vstd::prelude::*;

verus! {

/// The height in pixels of an image `image_width` pixels wide whose
/// width-to-height ratio is `aspect_width : aspect_height`, truncated
/// toward zero.
pub open spec fn spec_image_height(image_width: int, aspect_width: int, aspect_height: int) -> int {
    (image_width * aspect_height) / aspect_width
}

/// Computes the height of an image from its width and its aspect ratio,
/// given as the two whole numbers `aspect_width : aspect_height`
/// (16 : 9 for a wide screen).
pub fn image_height(image_width: u32, aspect_width: u32, aspect_height: u32) -> (r: u64)
    requires
        aspect_width > 0,
    ensures
        r as int == spec_image_height(image_width as int, aspect_width as int, aspect_height as int),
        aspect_height <= aspect_width ==> r <= image_width,
{
    let w: u64 = image_width as u64;
    let h: u64 = aspect_height as u64;
    let a: u64 = aspect_width as u64;
    proof {
        let (wi, hi, ai) = (w as int, h as int, a as int);
        assert(wi * hi <= u32::MAX as int * u32::MAX as int) by (nonlinear_arith)
            requires 0 <= wi <= u32::MAX, 0 <= hi <= u32::MAX;
        if hi <= ai {
            assert((wi * hi) / ai <= wi) by (nonlinear_arith)
                requires 0 <= hi <= ai, ai > 0, wi >= 0;
        }
    }
    (w * h) / a
}

} // verus!
