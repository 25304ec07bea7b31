//! The requests a front end makes: metadata, size estimates, previews, and
//! the steps of one conversion job.

use vstd::prelude::*;
use crate::ImageProcessor;
use crate::batch::{
    job_outcome, progress_after_decode, progress_after_encode, BatchConversionItem,
    BatchConversionResult, ConversionProgress, ConversionSettings, ImageMetadata,
};
use crate::codec::{
    is_load_error, jpeg_request, load_outcome, png_encoding, without_alpha, Encoded, JpegRequest,
    SourceData,
};
use crate::preview::{preview_of, PreviewSource, PreviewStep};
use crate::error::ConvertError;
use crate::estimate::estimated_size;
use crate::format::{
    decoder_for, format_tag, parse_target_format, select_decoder, target_format_of, Decoder,
    ImageFormat,
};
use crate::raster::{PixelBuffer, StridedPlane};

verus! {

/// The bound on the longer side of a preview.
pub const PREVIEW_MAX_SIZE: u32 = 800;

/// The JPEG quality of a preview.
pub const PREVIEW_QUALITY: u8 = 75;

/// Whether a preview is made for a path: only for HEIC and HEIF files.
pub fn check_preview_source(path: &str) -> (r: Result<(), String>)
    ensures
        r is Ok <==> decoder_for(format_tag(path@)) == Decoder::Heic,
        r matches Err(m) ==> m@ == "Preview generation only needed for HEIC/HEIF files"@,
{
    let tag = match ImageProcessor::get_format(path) {
        Ok(tag) => tag,
        Err(e) => {
            return Err(e.message());
        },
    };
    match select_decoder(tag.as_str()) {
        Decoder::Heic => Ok(()),
        Decoder::Generic => Err("Preview generation only needed for HEIC/HEIF files".to_owned()),
    }
}

/// What a preview request comes to.
#[derive(Debug)]
pub enum PreviewOutcome {
    /// The preview, ready for the JPEG compressor.
    Jpeg(JpegRequest),
    /// The thumbnail cannot be used: decode the primary image and ask again
    /// with it.
    NeedFullDecode,
    /// No preview is made; holds the message.
    Failed(String),
}

/// The plane a preview is made from.
pub open spec fn plane_of(source: &PreviewSource) -> &StridedPlane {
    match source {
        PreviewSource::Thumbnail(plane) => plane,
        PreviewSource::Full(plane) => plane,
    }
}

/// Makes the preview of the HEIC image at `path`: the plane scaled to at
/// most 800 pixels on its longer side, as input for the JPEG compressor at
/// quality 75. Any other kind of file is refused. An unusable thumbnail
/// asks for the full image; an unusable full image fails the request.
pub fn generate_preview(path: &str, source: &PreviewSource) -> (out: PreviewOutcome)
    ensures
        decoder_for(format_tag(path@)) != Decoder::Heic ==> (out matches PreviewOutcome::Failed(m)
            && m@ == "Preview generation only needed for HEIC/HEIF files"@),
        decoder_for(format_tag(path@)) == Decoder::Heic && plane_of(source).covers_rows() ==> (
        out matches PreviewOutcome::Jpeg(req) && req.quality == 75 && req.chroma_2x2 && req.width
            <= 800 && req.height <= 800 && req.width == preview_of(
            plane_of(source).packed(),
            plane_of(source).width,
            plane_of(source).height,
            800,
        ).width && req.height == preview_of(
            plane_of(source).packed(),
            plane_of(source).width,
            plane_of(source).height,
            800,
        ).height && req.rgb@ == without_alpha(
            preview_of(
                plane_of(source).packed(),
                plane_of(source).width,
                plane_of(source).height,
                800,
            ).data,
        )),
        decoder_for(format_tag(path@)) == Decoder::Heic && !plane_of(source).covers_rows()
            ==> (match source {
            PreviewSource::Thumbnail(_) => out is NeedFullDecode,
            PreviewSource::Full(_) => (out matches PreviewOutcome::Failed(m) && m@ == path@ + ": "@
                + "Failed to create RGBA image from HEIC data"@),
        }),
{
    match check_preview_source(path) {
        Ok(()) => {},
        Err(message) => {
            return PreviewOutcome::Failed(message);
        },
    }
    match ImageProcessor::load_heic_thumbnail(path, source, PREVIEW_MAX_SIZE) {
        PreviewStep::Ready(img) => PreviewOutcome::Jpeg(jpeg_request(&img, PREVIEW_QUALITY)),
        PreviewStep::NeedFullDecode => PreviewOutcome::NeedFullDecode,
        PreviewStep::Failed(e) => PreviewOutcome::Failed(e.message()),
    }
}

/// The text of a path that the file system handed out, which may have
/// none.
pub fn output_path_text(path: Option<&str>) -> (r: Result<String, ConvertError>)
    ensures
        match path {
            Some(text) => r matches Ok(s) && s@ == text@,
            None => r matches Err(e) && e is InvalidOutputPath,
        },
{
    match path {
        Some(text) => Ok(text.to_owned()),
        None => Err(ConvertError::InvalidOutputPath),
    }
}

/// Answers a metadata query: the size of the loaded image and the format
/// tag of its path.
pub fn analyze_image(path: &str, source: &SourceData) -> (r: Result<ImageMetadata, ConvertError>)
    ensures
        match r {
            Ok(meta) => load_outcome(path@, source) matches Some(img) && meta.width == img.width
                && meta.height == img.height && meta.format@ == format_tag(path@),
            Err(e) => load_outcome(path@, source) is None && is_load_error(&e, path@, source),
        },
{
    let img = match ImageProcessor::load_image(path, source) {
        Ok(img) => img,
        Err(e) => {
            return Err(e);
        },
    };
    let format = match ImageProcessor::get_format(path) {
        Ok(format) => format,
        Err(e) => {
            return Err(e);
        },
    };
    Ok(ImageMetadata { width: img.width, height: img.height, format })
}

/// Predicts the size of the output of a conversion from the size of the
/// loaded image and the settings.
pub fn estimate_output_size(path: &str, source: &SourceData, settings: &ConversionSettings) -> (r:
    Result<u64, ConvertError>)
    ensures
        match r {
            Ok(bytes) => load_outcome(path@, source) matches Some(img) && bytes == estimated_size(
                img.width as u32,
                img.height as u32,
                settings.target_format@,
                settings.quality,
            ),
            Err(e) => load_outcome(path@, source) is None && is_load_error(&e, path@, source),
        },
{
    let img = match ImageProcessor::load_image(path, source) {
        Ok(img) => img,
        Err(e) => {
            return Err(e);
        },
    };
    Ok(
        ImageProcessor::estimate_size(
            img.width,
            img.height,
            settings.target_format.as_str(),
            settings.quality,
        ),
    )
}

/// Prepares a loaded image for writing as the settings ask: the target
/// format must be `jpeg` or `png`.
pub fn encode_for(img: &PixelBuffer, settings: &ConversionSettings) -> (r: Result<
    Encoded,
    ConvertError,
>)
    requires
        img.wf(),
    ensures
        match target_format_of(settings.target_format@) {
            Some(ImageFormat::Jpeg) => (r matches Ok(Encoded::Jpeg(req)) && req.width == img.width
                && req.height == img.height && req.rgb@ == without_alpha(img@.data)
                && req.quality == settings.quality && req.chroma_2x2),
            Some(_) => (match png_encoding(img@) {
                Some(file) => (r matches Ok(Encoded::File(f)) && f@ == file),
                None => (r matches Err(e) && e is Encode && e.text() == "Failed to save PNG"@),
            }),
            None => (r matches Err(e) && e is UnsupportedFormat && e.text()
                == "Unsupported format"@),
        },
{
    let format = match parse_target_format(settings.target_format.as_str()) {
        Ok(format) => format,
        Err(e) => {
            return Err(e);
        },
    };
    ImageProcessor::save_image(img, format, settings.quality)
}

/// Where a job stands.
#[derive(Clone, Copy, Debug, PartialEq, Eq, Structural)]
pub enum JobStage {
    /// Its image is being read and decoded.
    Loading,
    /// Its output is being encoded and written.
    Saving,
    /// Its outcome has been given.
    Finished,
}

/// How the stage a job was in has ended.
#[derive(Debug)]
pub enum JobSignal {
    Succeeded,
    Failed(String),
}

/// The stage that follows `stage` once it has ended, well or not.
pub open spec fn next_stage(stage: JobStage, succeeded: bool) -> JobStage {
    match stage {
        JobStage::Loading => if succeeded {
            JobStage::Saving
        } else {
            JobStage::Finished
        },
        _ => JobStage::Finished,
    }
}

/// Whether the end of `stage` gives the job's outcome: when the job
/// finishes with it.
pub open spec fn gives_outcome(stage: JobStage, succeeded: bool) -> bool {
    stage != JobStage::Finished && next_stage(stage, succeeded) == JobStage::Finished
}

/// What follows the end of a stage: the next stage, the notification to
/// send, if any, and the outcome, if the job is over.
#[derive(Debug)]
pub struct JobAdvance {
    pub next: JobStage,
    pub notify: Option<ConversionProgress>,
    pub outcome: Option<BatchConversionResult>,
}

/// The decision after a stage of a job has ended. A decoded image is
/// reported at 50 percent and saved next; a written output is reported at
/// 100 percent and ends the job with its output path; a failure ends the
/// job with its message and no report. A finished job stays finished.
pub fn advance_job(item: &BatchConversionItem, stage: JobStage, signal: &JobSignal) -> (step:
    JobAdvance)
    ensures
        stage == JobStage::Finished ==> step.next == JobStage::Finished && step.notify is None
            && step.outcome is None,
        stage == JobStage::Loading && signal is Succeeded ==> step.next == JobStage::Saving
            && step.outcome is None && step.notify is Some && step.notify->Some_0.progress == 50
            && step.notify->Some_0.file_id@ == item.file_id@,
        stage == JobStage::Saving && signal is Succeeded ==> step.next == JobStage::Finished
            && step.notify is Some && step.notify->Some_0.progress == 100
            && step.notify->Some_0.file_id@ == item.file_id@ && step.outcome is Some
            && step.outcome->Some_0.records(item, &Ok(item.output_path)),
        stage != JobStage::Finished && signal is Failed ==> step.next == JobStage::Finished
            && step.notify is None && step.outcome is Some && step.outcome->Some_0.records(
            item,
            &Err(signal->Failed_0),
        ),
        step.next == next_stage(stage, signal is Succeeded),
        step.outcome is Some <==> gives_outcome(stage, signal is Succeeded),
        step.outcome is Some ==> step.outcome->Some_0.wf(),
{
    match stage {
        JobStage::Finished => JobAdvance { next: JobStage::Finished, notify: None, outcome: None },
        JobStage::Loading => match signal {
            JobSignal::Succeeded => JobAdvance {
                next: JobStage::Saving,
                notify: Some(progress_after_decode(&item.file_id)),
                outcome: None,
            },
            JobSignal::Failed(message) => {
                let result: Result<String, String> = Err(message.clone());
                JobAdvance {
                    next: JobStage::Finished,
                    notify: None,
                    outcome: Some(job_outcome(item, &result)),
                }
            },
        },
        JobStage::Saving => match signal {
            JobSignal::Succeeded => {
                let result: Result<String, String> = Ok(item.output_path.clone());
                JobAdvance {
                    next: JobStage::Finished,
                    notify: Some(progress_after_encode(&item.file_id)),
                    outcome: Some(job_outcome(item, &result)),
                }
            },
            JobSignal::Failed(message) => {
                let result: Result<String, String> = Err(message.clone());
                JobAdvance {
                    next: JobStage::Finished,
                    notify: None,
                    outcome: Some(job_outcome(item, &result)),
                }
            },
        },
    }
}

/// Every job gives exactly one outcome: however its two stages end, it is
/// finished after at most two steps, and exactly one of the steps on the
/// way gives the outcome.
pub proof fn lemma_job_gives_one_outcome(first: bool, second: bool)
    ensures
        next_stage(next_stage(JobStage::Loading, first), second) == JobStage::Finished,
        gives_outcome(JobStage::Loading, first) != gives_outcome(
            next_stage(JobStage::Loading, first),
            second,
        ),
        forall|later: bool| !gives_outcome(JobStage::Finished, later),
{
}

} // verus!
