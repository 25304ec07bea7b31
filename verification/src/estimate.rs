//! Heuristic prediction of the encoded size of an image.

use vstd::prelude::*;
use crate::ImageProcessor;
use crate::text::same_text;

verus! {

/// Number of pixels of a `width` by `height` image.
pub open spec fn pixel_count(width: u32, height: u32) -> nat {
    (width as nat) * (height as nat)
}

/// JPEG heuristic: `pixels * (0.5 + quality / 100 * 2.5)` bytes, rounded down.
/// Written over integers: `0.5 + q / 40 == (20 + q) / 40`.
pub open spec fn jpeg_bytes(pixels: nat, quality: u8) -> nat {
    pixels * (20 + quality as nat) / 40
}

/// PNG heuristic: `pixels * 3.5` bytes, rounded down.
pub open spec fn png_bytes(pixels: nat) -> nat {
    pixels * 7 / 2
}

/// A natural number clamped to the range of `u64`.
pub open spec fn clamp_u64(n: nat) -> u64 {
    if n > u64::MAX {
        u64::MAX
    } else {
        n as u64
    }
}

/// The predicted byte count for a target format tag.
pub open spec fn estimated_size(width: u32, height: u32, format: Seq<char>, quality: u8) -> u64 {
    if format == "jpeg"@ {
        clamp_u64(jpeg_bytes(pixel_count(width, height), quality))
    } else if format == "png"@ {
        clamp_u64(png_bytes(pixel_count(width, height)))
    } else {
        0
    }
}

fn clamp_to_u64(n: u128) -> (r: u64)
    ensures
        r == clamp_u64(n as nat),
{
    if n > u64::MAX as u128 {
        u64::MAX
    } else {
        n as u64
    }
}

impl ImageProcessor {
    /// Predicts the size in bytes of an image of the given dimensions once
    /// encoded in `target_format` at `quality`. Unknown tags give `0`; a
    /// prediction beyond the range of `u64` gives `u64::MAX`.
    pub fn estimate_size(width: u32, height: u32, target_format: &str, quality: u8) -> (bytes: u64)
        ensures
            bytes == estimated_size(width, height, target_format@, quality),
    {
        assert((width as int) * (height as int) <= 0xFFFF_FFFF * 0xFFFF_FFFF) by (nonlinear_arith)
            requires
                width <= 0xFFFF_FFFF,
                height <= 0xFFFF_FFFF,
        ;
        let pixels: u128 = (width as u128) * (height as u128);
        assert(pixels == pixel_count(width, height));
        if same_text(target_format, "jpeg") {
            let factor: u128 = 20 + quality as u128;
            assert(pixels * factor <= 0xFFFF_FFFF * 0xFFFF_FFFF * 275) by (nonlinear_arith)
                requires
                    pixels <= 0xFFFF_FFFF * 0xFFFF_FFFF,
                    factor <= 275,
            ;
            clamp_to_u64(pixels * factor / 40)
        } else if same_text(target_format, "png") {
            clamp_to_u64(pixels * 7 / 2)
        } else {
            0
        }
    }
}

/// The JPEG estimate never decreases when the quality rises.
pub proof fn lemma_jpeg_estimate_monotone(width: u32, height: u32, q1: u8, q2: u8)
    requires
        q1 <= q2,
    ensures
        estimated_size(width, height, "jpeg"@, q1) <= estimated_size(width, height, "jpeg"@, q2),
{
    let p = pixel_count(width, height);
    assert(p * (20 + q1 as nat) <= p * (20 + q2 as nat)) by (nonlinear_arith)
        requires
            q1 <= q2,
    ;
    lemma_div_monotone(p * (20 + q1 as nat), p * (20 + q2 as nat), 40);
}

/// The JPEG estimate strictly grows with the quality once the image has
/// enough pixels for the step to be worth a whole byte and the lower
/// estimate is below the ceiling of `u64`.
pub proof fn lemma_jpeg_estimate_strict(width: u32, height: u32, q1: u8, q2: u8)
    requires
        q1 < q2,
        pixel_count(width, height) * (q2 - q1) >= 40,
        jpeg_bytes(pixel_count(width, height), q1) < u64::MAX,
    ensures
        estimated_size(width, height, "jpeg"@, q1) < estimated_size(width, height, "jpeg"@, q2),
{
    let p = pixel_count(width, height);
    let a = p * (20 + q1 as nat);
    let b = p * (20 + q2 as nat);
    assert(b >= a + 40) by (nonlinear_arith)
        requires
            a == p * (20 + q1 as nat),
            b == p * (20 + q2 as nat),
            p * (q2 - q1) >= 40,
            q1 < q2,
    ;
    lemma_div_monotone(a + 40, b, 40);
    assert((a + 40) / 40 == a / 40 + 1) by (nonlinear_arith);
}

/// An unknown format tag is estimated at zero bytes.
pub proof fn lemma_unknown_format_is_zero(width: u32, height: u32, format: Seq<char>, quality: u8)
    requires
        format != "jpeg"@,
        format != "png"@,
    ensures
        estimated_size(width, height, format, quality) == 0,
{
}

/// Integer division by a positive number is monotone.
pub proof fn lemma_div_monotone(a: nat, b: nat, d: nat)
    requires
        a <= b,
        d > 0,
    ensures
        a / d <= b / d,
{
    assert(a / d <= b / d) by (nonlinear_arith)
        requires
            a <= b,
            d > 0,
    ;
}

} // verus!
