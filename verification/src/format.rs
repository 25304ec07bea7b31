//! Format detection: from a path to a format tag, from a tag to the
//! decoder or the output format it names.

use vstd::prelude::*;
use crate::ImageProcessor;
use crate::error::ConvertError;
use crate::text::same_text;

verus! {

/// The extension of a path as `std::path::Path::extension` defines it on
/// the target the library is built for: the part of the file name after
/// its last dot, if the name has one that is not its first character.
pub uninterp spec fn extension_of(path: Seq<char>) -> Option<Seq<char>>;

/// The lower-case form of a text as `str::to_lowercase` defines it.
pub uninterp spec fn lowercased(text: Seq<char>) -> Seq<char>;

/// `std::path::Path::extension` on a path given as text. The result
/// depends on the text alone.
#[verifier::external_body]
fn path_extension(path: &str) -> (ext: Option<String>)
    ensures
        match ext {
            Some(e) => extension_of(path@) == Some(e@),
            None => extension_of(path@) is None,
        },
{
    std::path::Path::new(path).extension().and_then(|e| e.to_str()).map(|e| e.to_owned())
}

/// `str::to_lowercase`. The result depends on the text alone.
#[verifier::external_body]
fn lowercase(text: &str) -> (lower: String)
    ensures
        lower@ == lowercased(text@),
{
    text.to_lowercase()
}

/// The format tag of a path: its extension in lower case, or the empty
/// text where it has none.
pub open spec fn format_tag(path: Seq<char>) -> Seq<char> {
    match extension_of(path) {
        Some(e) => lowercased(e),
        None => Seq::empty(),
    }
}

/// Which decoder reads a source.
#[derive(Clone, Copy, Debug, PartialEq, Eq, Structural)]
pub enum Decoder {
    /// The general decoder, chosen for every tag but the two below.
    Generic,
    /// The HEIC/HEIF decoder.
    Heic,
}

/// The decoder that a format tag selects.
pub open spec fn decoder_for(tag: Seq<char>) -> Decoder {
    if tag == "heic"@ || tag == "heif"@ {
        Decoder::Heic
    } else {
        Decoder::Generic
    }
}

/// Selects the decoder for a format tag: the HEIC decoder for `heic` and
/// `heif`, the general one otherwise.
pub fn select_decoder(tag: &str) -> (d: Decoder)
    ensures
        d == decoder_for(tag@),
{
    if same_text(tag, "heic") || same_text(tag, "heif") {
        Decoder::Heic
    } else {
        Decoder::Generic
    }
}

/// A source: its path and the format tag inferred from it.
#[derive(Debug)]
pub struct SourceDescriptor {
    pub path: String,
    pub format: String,
}

impl SourceDescriptor {
    /// The tag is the one the path has.
    pub open spec fn wf(&self) -> bool {
        self.format@ == format_tag(self.path@)
    }

    /// Describes the source at `path`.
    pub fn new(path: &str) -> (d: SourceDescriptor)
        ensures
            d.wf(),
            d.path@ == path@,
    {
        let format = match path_extension(path) {
            Some(ext) => lowercase(ext.as_str()),
            None => String::new(),
        };
        SourceDescriptor { path: path.to_owned(), format }
    }

    /// The decoder that reads this source.
    pub fn decoder(&self) -> (d: Decoder)
        ensures
            d == decoder_for(self.format@),
    {
        select_decoder(self.format.as_str())
    }
}

/// A container format an image can be asked to be written in.
#[derive(Clone, Copy, Debug, PartialEq, Eq, Structural)]
pub enum ImageFormat {
    Jpeg,
    Png,
    Gif,
    Bmp,
    Tiff,
    WebP,
}

/// The output format that a settings tag names.
pub open spec fn target_format_of(tag: Seq<char>) -> Option<ImageFormat> {
    if tag == "jpeg"@ {
        Some(ImageFormat::Jpeg)
    } else if tag == "png"@ {
        Some(ImageFormat::Png)
    } else {
        None
    }
}

/// Reads the target format of a request: `jpeg` or `png`; anything else is
/// refused as unsupported.
pub fn parse_target_format(tag: &str) -> (r: Result<ImageFormat, ConvertError>)
    ensures
        match r {
            Ok(f) => target_format_of(tag@) == Some(f),
            Err(e) => target_format_of(tag@) is None && e is UnsupportedFormat,
        },
{
    if same_text(tag, "jpeg") {
        Ok(ImageFormat::Jpeg)
    } else if same_text(tag, "png") {
        Ok(ImageFormat::Png)
    } else {
        Err(ConvertError::UnsupportedFormat)
    }
}

impl ImageProcessor {
    /// The format tag of a path: its extension in lower case, empty where
    /// the path has none. Never fails.
    pub fn get_format(path: &str) -> (r: Result<String, ConvertError>)
        ensures
            r is Ok,
            r->Ok_0@ == format_tag(path@),
            extension_of(path@) is None ==> r->Ok_0@.len() == 0,
    {
        Ok(SourceDescriptor::new(path).format)
    }
}

} // verus!
