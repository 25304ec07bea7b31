//! Previews of HEIC images: the embedded thumbnail where it can be used,
//! else the full image scaled down to a bound on its longer side.

use vstd::prelude::*;
use crate::ImageProcessor;
use crate::error::ConvertError;
use crate::raster::{strip_stride, PixelBuffer, Raster, StridedPlane};

verus! {

/// The longer of two sides.
pub open spec fn longer_side(width: u32, height: u32) -> u32 {
    if width >= height {
        width
    } else {
        height
    }
}

/// Whether an image has pixels and a side beyond the bound, so that it is
/// scaled down.
pub open spec fn needs_scaling(width: u32, height: u32, max_size: u32) -> bool {
    width >= 1 && height >= 1 && (width > max_size || height > max_size)
}

/// A side scaled by `max_size / longer`, rounded down.
pub open spec fn scaled_side(side: u32, longer: u32, max_size: u32) -> int {
    (side * max_size) / (longer as int)
}

/// The size asked of the scaler for a preview: the image's own where it
/// needs no scaling, else both sides scaled by `max_size / longer side`.
pub open spec fn preview_size(width: u32, height: u32, max_size: u32) -> (int, int) {
    if needs_scaling(width, height, max_size) {
        (
            scaled_side(width, longer_side(width, height), max_size),
            scaled_side(height, longer_side(width, height), max_size),
        )
    } else {
        (width as int, height as int)
    }
}

proof fn lemma_scaled_side_bound(side: u32, longer: u32, max_size: u32)
    requires
        side <= longer,
        longer >= 1,
    ensures
        0 <= scaled_side(side, longer, max_size) <= max_size,
        side == longer ==> scaled_side(side, longer, max_size) == max_size,
{
    let s = side as int;
    let l = longer as int;
    let m = max_size as int;
    assert(0 <= (s * m) / l <= m) by (nonlinear_arith)
        requires
            0 <= s <= l,
            l >= 1,
            m >= 0,
    ;
    assert((l * m) / l == m) by (nonlinear_arith)
        requires
            l >= 1,
            m >= 0,
    ;
}

/// Computes the size to ask of the scaler for a preview.
pub fn preview_dimensions(width: u32, height: u32, max_size: u32) -> (size: (u32, u32))
    ensures
        (size.0 as int, size.1 as int) == preview_size(width, height, max_size),
{
    if width >= 1 && height >= 1 && (width > max_size || height > max_size) {
        let longer: u32 = if width >= height {
            width
        } else {
            height
        };
        proof {
            lemma_scaled_side_bound(width, longer, max_size);
            lemma_scaled_side_bound(height, longer, max_size);
            assert((width as int) * (max_size as int) <= 0xFFFF_FFFF * 0xFFFF_FFFF
                && (height as int) * (max_size as int) <= 0xFFFF_FFFF * 0xFFFF_FFFF
                && (width as int) * (max_size as int) >= 0 && (height as int) * (max_size as int)
                >= 0) by (nonlinear_arith)
                requires
                    0 <= width <= 0xFFFF_FFFF,
                    0 <= height <= 0xFFFF_FFFF,
                    0 <= max_size <= 0xFFFF_FFFF,
            ;
        }
        let w: u64 = (width as u64) * (max_size as u64) / (longer as u64);
        let h: u64 = (height as u64) * (max_size as u64) / (longer as u64);
        (w as u32, h as u32)
    } else {
        (width, height)
    }
}

/// A scaled image has the bound for its longer side, no side beyond it,
/// and the proportions of the source up to the rounding of the shorter
/// side.
pub proof fn lemma_preview_size_fits(width: u32, height: u32, max_size: u32)
    requires
        needs_scaling(width, height, max_size),
    ensures
        0 <= preview_size(width, height, max_size).0 <= max_size,
        0 <= preview_size(width, height, max_size).1 <= max_size,
        preview_size(width, height, max_size).0 == max_size || preview_size(
            width,
            height,
            max_size,
        ).1 == max_size,
        width >= height ==> 0 <= max_size * height - preview_size(width, height, max_size).1
            * width < width,
        height >= width ==> 0 <= max_size * width - preview_size(width, height, max_size).0
            * height < height,
{
    let longer = longer_side(width, height);
    lemma_scaled_side_bound(width, longer, max_size);
    lemma_scaled_side_bound(height, longer, max_size);
    let w = width as int;
    let h = height as int;
    let m = max_size as int;
    if width >= height {
        assert(0 <= m * h - ((h * m) / w) * w < w) by (nonlinear_arith)
            requires
                w >= 1,
                h >= 0,
                m >= 0,
        ;
    }
    if height >= width {
        assert(0 <= m * w - ((w * m) / h) * h < h) by (nonlinear_arith)
            requires
                h >= 1,
                w >= 0,
                m >= 0,
        ;
    }
}

/// A `width` by `height` image has the proportions of a `from_width` by
/// `from_height` one, each side within one pixel of the proportional
/// value.
pub open spec fn keeps_proportions(from_width: u32, from_height: u32, width: u32, height: u32)
    -> bool {
    -(from_width + from_height) <= width * from_height - height * from_width <= from_width
        + from_height
}

/// A side cut down to the bound.
pub open spec fn clamped_side(side: u32, max_size: u32) -> u32 {
    if side > max_size {
        max_size
    } else {
        side
    }
}

/// The image that the scaler returns for a source and the bounds asked of
/// it: the source resampled with a triangle filter, proportions kept.
pub uninterp spec fn resized(r: Raster, nwidth: u32, nheight: u32) -> Raster;

/// `image::DynamicImage::resize` with `FilterType::Triangle` on an image
/// that has pixels. The result depends on the arguments alone; it is a
/// packed raster that fits within the bounds, a bound of zero counting
/// as one. The scaler multiplies both sides by one ratio, rounds each to
/// the nearest whole number and raises a zero to one: so no side is zero,
/// and each is within one pixel of the proportional value.
#[verifier::external_body]
fn image_resize(buf: PixelBuffer, nwidth: u32, nheight: u32) -> (out: PixelBuffer)
    requires
        buf.wf(),
        buf.width >= 1,
        buf.height >= 1,
    ensures
        out@ == resized(buf@, nwidth, nheight),
        out.wf(),
        out.width <= nwidth || out.width == 1,
        out.height <= nheight || out.height == 1,
        out.width >= 1,
        out.height >= 1,
        keeps_proportions(buf.width, buf.height, out.width, out.height),
{
    let img = image::RgbaImage::from_raw(buf.width, buf.height, buf.data).unwrap();
    let src = image::DynamicImage::ImageRgba8(img);
    let res = src.resize(nwidth, nheight, image::imageops::FilterType::Triangle).into_rgba8();
    PixelBuffer { width: res.width(), height: res.height(), data: res.into_raw() }
}

/// The preview made of an image: what the scaler returns for the preview
/// size where the image has pixels and a side beyond the bound; an image
/// without pixels whose sides are cut down to the bound where it has none;
/// else the image itself.
pub open spec fn preview_of(r: Raster, width: u32, height: u32, max_size: u32) -> Raster {
    if needs_scaling(width, height, max_size) {
        resized(
            r,
            preview_size(width, height, max_size).0 as u32,
            preview_size(width, height, max_size).1 as u32,
        )
    } else if width > max_size || height > max_size {
        Raster {
            width: clamped_side(width, max_size) as nat,
            height: clamped_side(height, max_size) as nat,
            data: Seq::empty(),
        }
    } else {
        r
    }
}

/// `out` is the preview of a `width` by `height` image `r`: no side beyond
/// a bound of one or more, and, where it was scaled, no side of zero and
/// the proportions of the image.
pub open spec fn is_preview(out: &PixelBuffer, r: Raster, width: u32, height: u32, max_size: u32)
    -> bool {
    &&& out.wf()
    &&& out@ == preview_of(r, width, height, max_size)
    &&& (max_size >= 1 ==> out.width <= max_size && out.height <= max_size)
    &&& (needs_scaling(width, height, max_size) ==> out.width >= 1 && out.height >= 1
        && keeps_proportions(width, height, out.width, out.height))
}

/// Scales an image down to a preview whose sides do not exceed `max_size`,
/// keeping its proportions. An image within the bound is returned as it
/// is; one without pixels has its sides cut down to the bound.
pub fn fit_preview(full: PixelBuffer, max_size: u32) -> (out: PixelBuffer)
    requires
        full.wf(),
    ensures
        is_preview(&out, full@, full.width, full.height, max_size),
{
    if full.width <= max_size && full.height <= max_size {
        full
    } else if full.width >= 1 && full.height >= 1 {
        let size = preview_dimensions(full.width, full.height, max_size);
        proof {
            lemma_preview_size_fits(full.width, full.height, max_size);
        }
        image_resize(full, size.0, size.1)
    } else {
        let width: u32 = if full.width > max_size {
            max_size
        } else {
            full.width
        };
        let height: u32 = if full.height > max_size {
            max_size
        } else {
            full.height
        };
        assert(width * height * 4 == 0) by (nonlinear_arith)
            requires
                width == 0 || height == 0,
        ;
        let empty = PixelBuffer { width, height, data: Vec::new() };
        assert(empty@.data =~= Seq::<u8>::empty());
        empty
    }
}

/// What the caller has decoded so far for a preview.
#[derive(Debug)]
pub enum PreviewSource {
    /// The first embedded thumbnail of the primary image.
    Thumbnail(StridedPlane),
    /// The primary image itself.
    Full(StridedPlane),
}

/// What to do next for a preview.
#[derive(Debug)]
pub enum PreviewStep {
    /// The preview is ready.
    Ready(PixelBuffer),
    /// The thumbnail cannot be used: decode the primary image and come back
    /// with it.
    NeedFullDecode,
    /// The primary image cannot be used either.
    Failed(ConvertError),
}

impl ImageProcessor {
    /// One step towards the preview of the HEIC image at `path`. A usable
    /// thumbnail gives the preview; an unusable one asks for the full
    /// image, silently. A malformed full image is a decode error. Either
    /// plane is stripped of its padding and brought within `max_size`.
    pub fn load_heic_thumbnail(path: &str, source: &PreviewSource, max_size: u32) -> (step:
        PreviewStep)
        ensures
            match source {
                PreviewSource::Thumbnail(plane) => if plane.covers_rows() {
                    step matches PreviewStep::Ready(b) && is_preview(
                        &b,
                        plane.packed(),
                        plane.width,
                        plane.height,
                        max_size,
                    )
                } else {
                    step is NeedFullDecode
                },
                PreviewSource::Full(plane) => if plane.covers_rows() {
                    step matches PreviewStep::Ready(b) && is_preview(
                        &b,
                        plane.packed(),
                        plane.width,
                        plane.height,
                        max_size,
                    )
                } else {
                    step matches PreviewStep::Failed(e) && e is Decode && e.path() == path@
                        && e.cause() == "Failed to create RGBA image from HEIC data"@
                },
            },
    {
        match source {
            PreviewSource::Thumbnail(plane) => match strip_stride(plane) {
                Some(b) => PreviewStep::Ready(fit_preview(b, max_size)),
                None => PreviewStep::NeedFullDecode,
            },
            PreviewSource::Full(plane) => match Self::load_heic(path, plane) {
                Ok(b) => PreviewStep::Ready(fit_preview(b, max_size)),
                Err(e) => PreviewStep::Failed(e),
            },
        }
    }
}

} // verus!
