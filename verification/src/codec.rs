//! Decoding sources into packed rasters and preparing rasters for
//! encoding.

use vstd::prelude::*;
use vstd::arithmetic::div_mod::lemma_fundamental_div_mod_converse;
use crate::ImageProcessor;
use crate::error::ConvertError;
use crate::format::{decoder_for, format_tag, Decoder, ImageFormat, SourceDescriptor};
use crate::orient::{effective_tag, embedded_orientation, normalize_orientation, oriented};
use crate::raster::{strip_stride, PixelBuffer, Raster, StridedPlane};

verus! {

/// `image::ImageError`, the error of the `image` crate's decoders and
/// encoders. Nothing is known of its contents.
#[verifier::external_type_specification]
#[verifier::external_body]
pub struct ExImageError(image::ImageError);

/// The RGBA pixels that the general decoder reads out of the encoded file
/// at a path, or `None` where it refuses the file. The extension of the
/// path names the container the bytes are read as.
pub uninterp spec fn decoded(path: Seq<char>, bytes: Seq<u8>) -> Option<Raster>;

/// The PNG file that holds a raster, or `None` where the encoder fails.
pub uninterp spec fn png_encoding(r: Raster) -> Option<Seq<u8>>;

/// `image::ImageFormat::from_path` on the path, then
/// `image::load_from_memory_with_format` on the bytes with that format,
/// the result converted to 8-bit RGBA. A path whose extension names no
/// format is refused like a file that does not decode. What comes back
/// depends on the path and the bytes alone.
#[verifier::external_body]
fn image_decode(path: &str, bytes: &[u8]) -> (r: Result<PixelBuffer, image::ImageError>)
    ensures
        match r {
            Ok(b) => decoded(path@, bytes@) == Some(b@),
            Err(_) => decoded(path@, bytes@) is None,
        },
{
    let format = image::ImageFormat::from_path(path)?;
    let img = image::load_from_memory_with_format(bytes, format)?.into_rgba8();
    Ok(PixelBuffer { width: img.width(), height: img.height(), data: img.into_raw() })
}

/// `image::ImageBuffer::write_to` with `image::ImageFormat::Png`, into
/// memory. What comes back depends on the raster alone.
#[verifier::external_body]
fn image_encode_png(buf: &PixelBuffer) -> (r: Result<Vec<u8>, image::ImageError>)
    requires
        buf.wf(),
    ensures
        match r {
            Ok(file) => png_encoding(buf@) == Some(file@),
            Err(_) => png_encoding(buf@) is None,
        },
{
    let img = image::RgbaImage::from_raw(buf.width, buf.height, buf.data.clone()).unwrap();
    let mut file = std::io::Cursor::new(Vec::new());
    img.write_to(&mut file, image::ImageFormat::Png)?;
    Ok(file.into_inner())
}

/// The words of an `image::ImageError`, through its `Display`. Nothing is
/// claimed of them.
#[verifier::external_body]
fn image_error_text(e: &image::ImageError) -> (text: String) {
    e.to_string()
}

/// What a source holds once it has been read.
#[derive(Debug)]
pub enum SourceData {
    /// The bytes of the file, for the general decoder.
    Encoded(Vec<u8>),
    /// The primary image of a HEIC container as its decoder laid it out.
    HeicPlane(StridedPlane),
    /// Nothing: the source could not be opened or read, for the cause held.
    Unreadable(String),
}

/// The pixels that the general decoder yields for the file at a path:
/// those it reads, if they make a well-formed raster.
pub open spec fn generic_pixels(path: Seq<char>, bytes: Seq<u8>) -> Option<Raster> {
    match decoded(path, bytes) {
        Some(r) => if r.wf() {
            Some(r)
        } else {
            None
        },
        None => None,
    }
}

/// The image that loading a source yields. A HEIC plane is stripped of its
/// padding and left as it is; any other file is decoded and turned upright.
/// A source that could not be read, or that does not fit the decoder its
/// path selects, yields nothing.
pub open spec fn load_outcome(path: Seq<char>, source: &SourceData) -> Option<Raster> {
    match (decoder_for(format_tag(path)), source) {
        (Decoder::Heic, SourceData::HeicPlane(plane)) => if plane.covers_rows() {
            Some(plane.packed())
        } else {
            None
        },
        (Decoder::Generic, SourceData::Encoded(bytes)) => match generic_pixels(path, bytes@) {
            Some(r) => Some(oriented(r, effective_tag(embedded_orientation(bytes@)))),
            None => None,
        },
        _ => None,
    }
}

/// The cause of the error that loading a source ends in, where the
/// library or the reader of the source names it. Where the general
/// decoder refuses a file the cause is what the decoder says, and this
/// is `None`.
pub open spec fn load_error_cause(path: Seq<char>, source: &SourceData) -> Option<Seq<char>> {
    match (decoder_for(format_tag(path)), source) {
        (_, SourceData::Unreadable(cause)) => Some(cause@),
        (Decoder::Heic, SourceData::HeicPlane(_)) => Some(
            "Failed to create RGBA image from HEIC data"@,
        ),
        (Decoder::Heic, SourceData::Encoded(_)) => Some("Failed to read HEIC file"@),
        (Decoder::Generic, SourceData::HeicPlane(_)) => Some("Failed to open image"@),
        (Decoder::Generic, SourceData::Encoded(bytes)) => if decoded(path, bytes@) is Some {
            Some("Decoded image is malformed"@)
        } else {
            None
        },
    }
}

/// `e` is the error that loading `source` at `path` ends in: it holds the
/// path, says that the source was unreadable or could not be decoded, and
/// holds the cause wherever one is named.
pub open spec fn is_load_error(e: &ConvertError, path: Seq<char>, source: &SourceData) -> bool {
    &&& e.path() == path
    &&& if source is Unreadable {
        e is UnreadableFile
    } else {
        e is Decode
    }
    &&& (load_error_cause(path, source) matches Some(cause) ==> e.cause() == cause)
}

/// Decodes the encoded file at `path` with the general decoder. A
/// refusal is a decode error that holds the path and the decoder's words.
pub fn decode_generic(path: &str, bytes: &[u8]) -> (r: Result<PixelBuffer, ConvertError>)
    ensures
        match r {
            Ok(b) => b.wf() && generic_pixels(path@, bytes@) == Some(b@),
            Err(e) => generic_pixels(path@, bytes@) is None && e is Decode && e.path() == path@ && (
            decoded(path@, bytes@) is Some ==> e.cause() == "Decoded image is malformed"@),
        },
{
    match image_decode(path, bytes) {
        Ok(raw) => {
            let ghost seen = raw@;
            match PixelBuffer::from_raw(raw.width, raw.height, raw.data) {
                Some(b) => {
                    assert(b@ == seen);
                    Ok(b)
                },
                None => Err(
                    ConvertError::Decode {
                        path: path.to_owned(),
                        cause: "Decoded image is malformed".to_owned(),
                    },
                ),
            }
        },
        Err(e) => Err(ConvertError::Decode { path: path.to_owned(), cause: image_error_text(&e) }),
    }
}

/// The RGB bytes of RGBA data: every fourth byte left out.
pub open spec fn without_alpha(data: Seq<u8>) -> Seq<u8> {
    Seq::new((data.len() / 4 * 3) as nat, |j: int| data[(j / 3) * 4 + j % 3])
}

/// Drops the alpha channel.
pub fn drop_alpha(buf: &PixelBuffer) -> (rgb: Vec<u8>)
    ensures
        rgb@ == without_alpha(buf@.data),
{
    let pixels: usize = buf.data.len() / 4;
    let mut rgb: Vec<u8> = Vec::new();
    let mut p: usize = 0;
    while p < pixels
        invariant
            p <= pixels,
            pixels == buf.data@.len() / 4,
            4 * pixels <= buf.data@.len() <= usize::MAX,
            rgb@.len() == 3 * p,
            forall|j: int| 0 <= j < rgb@.len() ==> rgb@[j] == buf.data@[(j / 3) * 4 + j % 3],
        decreases pixels - p,
    {
        proof {
            lemma_fundamental_div_mod_converse(3 * p, 3, p as int, 0);
            lemma_fundamental_div_mod_converse(3 * p + 1, 3, p as int, 1);
            lemma_fundamental_div_mod_converse(3 * p + 2, 3, p as int, 2);
        }
        rgb.push(buf.data[4 * p]);
        rgb.push(buf.data[4 * p + 1]);
        rgb.push(buf.data[4 * p + 2]);
        p += 1;
    }
    assert(rgb@ =~= without_alpha(buf@.data));
    rgb
}

/// What a JPEG compressor needs: packed RGB rows, the quality, and 2x2
/// chroma subsampling.
#[derive(Debug)]
pub struct JpegRequest {
    pub width: u32,
    pub height: u32,
    pub rgb: Vec<u8>,
    pub quality: u8,
    pub chroma_2x2: bool,
}

/// The outcome of preparing an image for writing.
#[derive(Debug)]
pub enum Encoded {
    /// The bytes of the finished file.
    File(Vec<u8>),
    /// The input for the JPEG compressor, which produces the file.
    Jpeg(JpegRequest),
}

/// Prepares the input of the JPEG compressor: alpha dropped, 2x2 chroma
/// subsampling, the quality as given.
pub fn jpeg_request(img: &PixelBuffer, quality: u8) -> (req: JpegRequest)
    ensures
        req.width == img.width,
        req.height == img.height,
        req.rgb@ == without_alpha(img@.data),
        req.quality == quality,
        req.chroma_2x2,
{
    JpegRequest {
        width: img.width,
        height: img.height,
        rgb: drop_alpha(img),
        quality,
        chroma_2x2: true,
    }
}

impl ImageProcessor {
    /// Decodes the primary image of the HEIC container at `path` from the
    /// plane its decoder produced, by stripping the row padding.
    pub fn load_heic(path: &str, plane: &StridedPlane) -> (r: Result<PixelBuffer, ConvertError>)
        ensures
            match r {
                Ok(b) => plane.covers_rows() && b.wf() && b@ == plane.packed(),
                Err(e) => !plane.covers_rows() && e is Decode && e.path() == path@ && e.cause()
                    == "Failed to create RGBA image from HEIC data"@,
            },
    {
        match strip_stride(plane) {
            Some(b) => Ok(b),
            None => Err(
                ConvertError::Decode {
                    path: path.to_owned(),
                    cause: "Failed to create RGBA image from HEIC data".to_owned(),
                },
            ),
        }
    }

    /// Loads the image of a source that has been read. The path selects the
    /// decoder: the HEIC decoder for `heic` and `heif`, whose image is left
    /// as decoded; the general decoder otherwise, whose image is turned
    /// upright according to the file's metadata. Every failure holds the
    /// path and its cause.
    pub fn load_image(path: &str, source: &SourceData) -> (r: Result<PixelBuffer, ConvertError>)
        ensures
            match r {
                Ok(b) => b.wf() && load_outcome(path@, source) == Some(b@),
                Err(e) => load_outcome(path@, source) is None && is_load_error(&e, path@, source),
            },
    {
        let decoder = SourceDescriptor::new(path).decoder();
        match source {
            SourceData::Unreadable(cause) => Err(
                ConvertError::UnreadableFile { path: path.to_owned(), cause: cause.clone() },
            ),
            SourceData::HeicPlane(plane) => match decoder {
                Decoder::Heic => Self::load_heic(path, plane),
                Decoder::Generic => Err(
                    ConvertError::Decode {
                        path: path.to_owned(),
                        cause: "Failed to open image".to_owned(),
                    },
                ),
            },
            SourceData::Encoded(bytes) => match decoder {
                Decoder::Heic => Err(
                    ConvertError::Decode {
                        path: path.to_owned(),
                        cause: "Failed to read HEIC file".to_owned(),
                    },
                ),
                Decoder::Generic => {
                    let img = match decode_generic(path, bytes.as_slice()) {
                        Ok(img) => img,
                        Err(e) => {
                            return Err(e);
                        },
                    };
                    Ok(normalize_orientation(bytes.as_slice(), img))
                },
            },
        }
    }

    /// Prepares an image for writing in the given format. PNG gives the
    /// finished file, whatever the quality; JPEG gives the compressor's
    /// input; any other format is refused.
    pub fn save_image(img: &PixelBuffer, format: ImageFormat, quality: u8) -> (r: Result<
        Encoded,
        ConvertError,
    >)
        requires
            img.wf(),
        ensures
            format == ImageFormat::Jpeg ==> (r matches Ok(Encoded::Jpeg(req)) && req.width
                == img.width && req.height == img.height && req.rgb@ == without_alpha(
                img@.data,
            ) && req.quality == quality && req.chroma_2x2),
            format == ImageFormat::Png ==> (match png_encoding(img@) {
                Some(file) => (r matches Ok(Encoded::File(f)) && f@ == file),
                None => (r matches Err(e) && e is Encode && e.text() == "Failed to save PNG"@),
            }),
            format != ImageFormat::Jpeg && format != ImageFormat::Png ==> (r matches Err(e) && e
                is UnsupportedFormat),
    {
        match format {
            ImageFormat::Jpeg => Ok(Encoded::Jpeg(jpeg_request(img, quality))),
            ImageFormat::Png => match image_encode_png(img) {
                Ok(file) => Ok(Encoded::File(file)),
                Err(_) => Err(ConvertError::Encode("Failed to save PNG".to_owned())),
            },
            _ => Err(ConvertError::UnsupportedFormat),
        }
    }
}

} // verus!
