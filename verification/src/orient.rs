//! Orientation normalisation: turning a decoded image upright according to
//! the orientation tag stored in its metadata.

use vstd::prelude::*;
use vstd::arithmetic::div_mod::lemma_fundamental_div_mod_converse;
use crate::raster::{PixelBuffer, Raster};

verus! {

/// A raster of the given size whose pixel at `(x, y)` is the pixel of `src`
/// at `origin(x, y)`.
pub open spec fn remapped(
    src: Raster,
    width: nat,
    height: nat,
    origin: spec_fn(int, int) -> (int, int),
) -> Raster {
    Raster {
        width,
        height,
        data: Seq::new(
            width * height * 4,
            |i: int|
                {
                    let from = origin((i / 4) % (width as int), (i / 4) / (width as int));
                    src.sample(from.0, from.1, i % 4)
                },
        ),
    }
}

/// Mirror image: columns reversed.
pub open spec fn flipped_horizontally(r: Raster) -> Raster {
    remapped(r, r.width, r.height, |x: int, y: int| (r.width - 1 - x, y))
}

/// Rows reversed.
pub open spec fn flipped_vertically(r: Raster) -> Raster {
    remapped(r, r.width, r.height, |x: int, y: int| (x, r.height - 1 - y))
}

/// Quarter turn clockwise: the left column becomes the top row.
pub open spec fn rotated_90(r: Raster) -> Raster {
    remapped(r, r.height, r.width, |x: int, y: int| (y, r.height - 1 - x))
}

/// Half turn.
pub open spec fn rotated_180(r: Raster) -> Raster {
    remapped(r, r.width, r.height, |x: int, y: int| (r.width - 1 - x, r.height - 1 - y))
}

/// Three quarter turns clockwise: the right column becomes the top row.
pub open spec fn rotated_270(r: Raster) -> Raster {
    remapped(r, r.height, r.width, |x: int, y: int| (r.width - 1 - y, x))
}

/// The upright image for an orientation tag: 2 mirrors, 3 turns by 180
/// degrees, 4 flips vertically, 5 turns by 90 degrees and mirrors, 6 turns
/// by 90 degrees, 7 turns by 270 degrees and mirrors, 8 turns by 270
/// degrees; 1 and every other value leave the image as it is.
pub open spec fn oriented(r: Raster, tag: u32) -> Raster {
    if tag == 2 {
        flipped_horizontally(r)
    } else if tag == 3 {
        rotated_180(r)
    } else if tag == 4 {
        flipped_vertically(r)
    } else if tag == 5 {
        flipped_horizontally(rotated_90(r))
    } else if tag == 6 {
        rotated_90(r)
    } else if tag == 7 {
        flipped_horizontally(rotated_270(r))
    } else if tag == 8 {
        rotated_270(r)
    } else {
        r
    }
}

/// Where in a `width` by `height` source the pixel at `(x, y)` of the
/// upright image comes from.
pub open spec fn orientation_origin(tag: u32, width: int, height: int, x: int, y: int) -> (
    int,
    int,
) {
    if tag == 2 {
        (width - 1 - x, y)
    } else if tag == 3 {
        (width - 1 - x, height - 1 - y)
    } else if tag == 4 {
        (x, height - 1 - y)
    } else if tag == 5 {
        (y, x)
    } else if tag == 6 {
        (y, height - 1 - x)
    } else if tag == 7 {
        (width - 1 - y, height - 1 - x)
    } else if tag == 8 {
        (width - 1 - y, x)
    } else {
        (x, y)
    }
}

/// The orientation value stored in the primary image's metadata of an
/// encoded file, if the file has readable metadata with that field.
pub uninterp spec fn embedded_orientation(bytes: Seq<u8>) -> Option<u32>;

/// Reads the orientation field with the `exif` crate:
/// `Reader::read_from_container` on the bytes, `Exif::get_field` for
/// `Tag::Orientation` of the primary image, `Value::get_uint(0)` on it.
/// The result depends on the bytes alone and is `None` when any of the
/// three steps finds nothing.
#[verifier::external_body]
fn read_orientation(bytes: &[u8]) -> (tag: Option<u32>)
    ensures
        tag == embedded_orientation(bytes@),
{
    let mut cursor = std::io::Cursor::new(bytes);
    match exif::Reader::new().read_from_container(&mut cursor) {
        Ok(meta) => match meta.get_field(exif::Tag::Orientation, exif::In::PRIMARY) {
            Some(field) => field.value.get_uint(0),
            None => None,
        },
        Err(_) => None,
    }
}

/// `image::imageops::flip_horizontal`: same size, the pixel at `(x, y)`
/// taken from `(width - 1 - x, y)`.
#[verifier::external_body]
fn image_flip_horizontal(buf: PixelBuffer) -> (out: PixelBuffer)
    requires
        buf.wf(),
    ensures
        out@ == flipped_horizontally(buf@),
{
    let img = image::RgbaImage::from_raw(buf.width, buf.height, buf.data).unwrap();
    let res = image::imageops::flip_horizontal(&img);
    PixelBuffer { width: res.width(), height: res.height(), data: res.into_raw() }
}

/// `image::imageops::flip_vertical`: same size, the pixel at `(x, y)`
/// taken from `(x, height - 1 - y)`.
#[verifier::external_body]
fn image_flip_vertical(buf: PixelBuffer) -> (out: PixelBuffer)
    requires
        buf.wf(),
    ensures
        out@ == flipped_vertically(buf@),
{
    let img = image::RgbaImage::from_raw(buf.width, buf.height, buf.data).unwrap();
    let res = image::imageops::flip_vertical(&img);
    PixelBuffer { width: res.width(), height: res.height(), data: res.into_raw() }
}

/// `image::imageops::rotate90`: width and height swapped, the pixel at
/// `(x, y)` taken from `(y, height - 1 - x)` of the source.
#[verifier::external_body]
fn image_rotate90(buf: PixelBuffer) -> (out: PixelBuffer)
    requires
        buf.wf(),
    ensures
        out@ == rotated_90(buf@),
{
    let img = image::RgbaImage::from_raw(buf.width, buf.height, buf.data).unwrap();
    let res = image::imageops::rotate90(&img);
    PixelBuffer { width: res.width(), height: res.height(), data: res.into_raw() }
}

/// `image::imageops::rotate180`: same size, the pixel at `(x, y)` taken
/// from `(width - 1 - x, height - 1 - y)`.
#[verifier::external_body]
fn image_rotate180(buf: PixelBuffer) -> (out: PixelBuffer)
    requires
        buf.wf(),
    ensures
        out@ == rotated_180(buf@),
{
    let img = image::RgbaImage::from_raw(buf.width, buf.height, buf.data).unwrap();
    let res = image::imageops::rotate180(&img);
    PixelBuffer { width: res.width(), height: res.height(), data: res.into_raw() }
}

/// `image::imageops::rotate270`: width and height swapped, the pixel at
/// `(x, y)` taken from `(width - 1 - y, x)` of the source.
#[verifier::external_body]
fn image_rotate270(buf: PixelBuffer) -> (out: PixelBuffer)
    requires
        buf.wf(),
    ensures
        out@ == rotated_270(buf@),
{
    let img = image::RgbaImage::from_raw(buf.width, buf.height, buf.data).unwrap();
    let res = image::imageops::rotate270(&img);
    PixelBuffer { width: res.width(), height: res.height(), data: res.into_raw() }
}

/// Applies the transform that belongs to an orientation tag.
pub fn apply_orientation(buf: PixelBuffer, tag: u32) -> (out: PixelBuffer)
    requires
        buf.wf(),
    ensures
        out.wf(),
        out@ == oriented(buf@, tag),
{
    if tag == 2 {
        image_flip_horizontal(buf)
    } else if tag == 3 {
        image_rotate180(buf)
    } else if tag == 4 {
        image_flip_vertical(buf)
    } else if tag == 5 {
        let turned = image_rotate90(buf);
        image_flip_horizontal(turned)
    } else if tag == 6 {
        image_rotate90(buf)
    } else if tag == 7 {
        let turned = image_rotate270(buf);
        image_flip_horizontal(turned)
    } else if tag == 8 {
        image_rotate270(buf)
    } else {
        buf
    }
}

/// The tag to act on: the stored one, or 1 (upright) where none is stored.
pub open spec fn effective_tag(stored: Option<u32>) -> u32 {
    match stored {
        Some(tag) => tag,
        None => 1,
    }
}

/// Turns a decoded image upright according to the metadata of the encoded
/// file it came from. Missing or unreadable metadata leaves it unchanged.
pub fn normalize_orientation(encoded: &[u8], buf: PixelBuffer) -> (out: PixelBuffer)
    requires
        buf.wf(),
    ensures
        out.wf(),
        out@ == oriented(buf@, effective_tag(embedded_orientation(encoded@))),
{
    match read_orientation(encoded) {
        Some(tag) => apply_orientation(buf, tag),
        None => buf,
    }
}

/// A remapped raster holds, at each of its pixels, the source pixel that
/// the origin function names.
pub proof fn lemma_remapped_sample(
    src: Raster,
    width: nat,
    height: nat,
    origin: spec_fn(int, int) -> (int, int),
    x: int,
    y: int,
    c: int,
)
    requires
        0 <= x < width,
        0 <= y < height,
        0 <= c < 4,
    ensures
        remapped(src, width, height, origin).wf(),
        remapped(src, width, height, origin).sample(x, y, c) == src.sample(
            origin(x, y).0,
            origin(x, y).1,
            c,
        ),
{
    let p = y * width + x;
    let i = p * 4 + c;
    lemma_fundamental_div_mod_converse(i, 4, p, c);
    lemma_fundamental_div_mod_converse(p, width as int, y, x);
    assert(0 <= i < width * height * 4) by (nonlinear_arith)
        requires
            i == (y * width + x) * 4 + c,
            0 <= x < width,
            0 <= y < height,
            0 <= c < 4,
    ;
}

/// Tags 5 to 8 swap width and height; every other value keeps them.
pub proof fn lemma_oriented_dimensions(r: Raster, tag: u32)
    requires
        r.wf(),
    ensures
        oriented(r, tag).wf(),
        5 <= tag <= 8 ==> oriented(r, tag).width == r.height && oriented(r, tag).height
            == r.width,
        !(5 <= tag <= 8) ==> oriented(r, tag).width == r.width && oriented(r, tag).height
            == r.height,
{
    assert(r.width * r.height * 4 == r.height * r.width * 4) by (nonlinear_arith);
}

/// Every pixel of the upright image is the source pixel that the tag's
/// transform puts there.
pub proof fn lemma_oriented_pixels(r: Raster, tag: u32, x: int, y: int, c: int)
    requires
        r.wf(),
        0 <= x < oriented(r, tag).width,
        0 <= y < oriented(r, tag).height,
        0 <= c < 4,
    ensures
        oriented(r, tag).sample(x, y, c) == r.sample(
            orientation_origin(tag, r.width as int, r.height as int, x, y).0,
            orientation_origin(tag, r.width as int, r.height as int, x, y).1,
            c,
        ),
{
    let w = r.width;
    let h = r.height;
    if tag == 2 {
        lemma_remapped_sample(r, w, h, |x: int, y: int| (r.width - 1 - x, y), x, y, c);
    } else if tag == 3 {
        lemma_remapped_sample(
            r,
            w,
            h,
            |x: int, y: int| (r.width - 1 - x, r.height - 1 - y),
            x,
            y,
            c,
        );
    } else if tag == 4 {
        lemma_remapped_sample(r, w, h, |x: int, y: int| (x, r.height - 1 - y), x, y, c);
    } else if tag == 5 {
        let t = rotated_90(r);
        lemma_remapped_sample(t, h, w, |x: int, y: int| (t.width - 1 - x, y), x, y, c);
        lemma_remapped_sample(r, h, w, |x: int, y: int| (y, r.height - 1 - x), h - 1 - x, y, c);
    } else if tag == 6 {
        lemma_remapped_sample(r, h, w, |x: int, y: int| (y, r.height - 1 - x), x, y, c);
    } else if tag == 7 {
        let t = rotated_270(r);
        lemma_remapped_sample(t, h, w, |x: int, y: int| (t.width - 1 - x, y), x, y, c);
        lemma_remapped_sample(r, h, w, |x: int, y: int| (r.width - 1 - y, x), h - 1 - x, y, c);
    } else if tag == 8 {
        lemma_remapped_sample(r, h, w, |x: int, y: int| (r.width - 1 - y, x), x, y, c);
    }
}

} // verus!
