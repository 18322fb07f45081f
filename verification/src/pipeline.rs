//! One image through the pipeline: decode, find the format, name the output,
//! and compress or hand over for conversion. Everything here works on bytes
//! in memory. Reading the source and writing the result are the caller's: a
//! `Step` says what to write where, and `conclude` turns the caller's report
//! of the write into the outcome of the item.
//!
//! No function here fails as a whole: whatever goes wrong with an item comes
//! back as that item's `Step::Fail` or `TransformOutcome::Failure`.

use crate::codec::{decode, decoded, encode_for_extension, encoding_for_extension, raster_of, Raster};
use crate::compress::{
    compress_jpeg, compress_png, jpeg_compressed, png_compressed, Compressed, CompressionStats,
};
use crate::error::{
    no_extension_reason, no_file_name_reason, unknown_extension_reason, unnamed_directory_reason,
    unresizable_reason, unsupported_format_reason, ErrorKind, ErrorView, PipelineError,
};
use crate::format::{guess_image_format, sniffed_format, ImageFormat};
use crate::paths::{
    extension_of, file_name, get_filename_and_extension, join, join_path, path_file_name,
    resolve_output_path, resolved_output, text_of, Operation, PathError, ResolvedOutput,
};
use crate::resize::{resizable, resized, try_resize_image, wants_resize};
use image::DynamicImage;
use vstd::prelude::*;

verus! {

/// What is done to an image: compressed in its own format, or converted to
/// WebP.
#[derive(Clone, Copy, Debug, PartialEq, Eq, Structural)]
pub enum TransformMode {
    CompressInPlace,
    ConvertToWebP,
}

/// What comes next for an item.
#[derive(Debug)]
pub enum Step {
    /// The bytes of the output file are ready: make sure `directory` exists
    /// and write them to `output_path`.
    Write { directory: String, output_path: String, bytes: Vec<u8>, stats: Option<CompressionStats> },
    /// The image is to be encoded as WebP and written to `output_path`;
    /// `input_size` is the size of the source file.
    Encode { directory: String, output_path: String, image: DynamicImage, input_size: u64 },
    /// The item has failed; nothing is to be written.
    Fail(PipelineError),
}

/// A `Step` as plain values.
pub enum StepView {
    Write { directory: Seq<char>, output_path: Seq<char>, bytes: Seq<u8>, stats: Option<CompressionStats> },
    Encode { directory: Seq<char>, output_path: Seq<char>, image: Raster, input_size: u64 },
    Fail(ErrorView),
}

impl View for Step {
    type V = StepView;

    open spec fn view(&self) -> StepView {
        match self {
            Step::Write { directory, output_path, bytes, stats } => StepView::Write {
                directory: directory@,
                output_path: output_path@,
                bytes: bytes@,
                stats: *stats,
            },
            Step::Encode { directory, output_path, image, input_size } => StepView::Encode {
                directory: directory@,
                output_path: output_path@,
                image: raster_of(image),
                input_size: *input_size,
            },
            Step::Fail(error) => StepView::Fail(error@),
        }
    }
}

/// The operation that names the output of a mode.
pub open spec fn operation_of(mode: TransformMode) -> Operation {
    match mode {
        TransformMode::CompressInPlace => Operation::Compress,
        TransformMode::ConvertToWebP => Operation::Convert,
    }
}

/// The mode that the `webp` switch selects.
pub open spec fn mode_of(webp: bool) -> TransformMode {
    if webp {
        TransformMode::ConvertToWebP
    } else {
        TransformMode::CompressInPlace
    }
}

/// The failure of a path that cannot be resolved.
pub open spec fn path_failure_of(error: PathError) -> ErrorView {
    ErrorView {
        kind: ErrorKind::Path,
        reason: match error {
            PathError::NoFileName => no_file_name_reason(),
            PathError::NoExtension => no_extension_reason(),
        },
    }
}

/// What compressing gives for each format: JPEG is encoded again from the
/// image, PNG is optimised from the file's bytes, and no other format is
/// handled.
pub open spec fn compressed_image(src: Raster, data: Seq<u8>, format: ImageFormat, quality: u8) -> Result<
    (Seq<u8>, CompressionStats),
    ErrorView,
> {
    match format {
        ImageFormat::Jpeg => jpeg_compressed(src, data.len() as u64, quality),
        ImageFormat::Png => png_compressed(data),
        _ => Err(
            ErrorView { kind: ErrorKind::UnsupportedFormat, reason: unsupported_format_reason() },
        ),
    }
}

/// The step that a decoded image, its source bytes and its output place
/// lead to: conversion hands the image over for encoding whatever its
/// format; compression gives the bytes to write, or fails.
pub open spec fn planned_transform(
    src: Raster,
    data: Seq<u8>,
    directory: Seq<char>,
    output_path: Seq<char>,
    format: ImageFormat,
    mode: TransformMode,
    quality: u8,
) -> StepView {
    match mode {
        TransformMode::ConvertToWebP => StepView::Encode {
            directory,
            output_path,
            image: src,
            input_size: data.len() as u64,
        },
        TransformMode::CompressInPlace => match compressed_image(src, data, format, quality) {
            Ok((bytes, stats)) => StepView::Write {
                directory,
                output_path,
                bytes,
                stats: Some(stats),
            },
            Err(error) => StepView::Fail(error),
        },
    }
}

/// The step for one source file: a decode failure first, then a path
/// failure, then the transform of what was decoded, in the format that the
/// file's leading bytes show.
pub open spec fn planned_image(
    input: Seq<char>,
    data: Seq<u8>,
    output_dir: Option<Seq<char>>,
    batch_dir: Option<Seq<char>>,
    webp: bool,
    quality: u8,
) -> StepView {
    match decoded(data) {
        Err(text) => StepView::Fail(ErrorView { kind: ErrorKind::Decode, reason: text }),
        Ok(src) => match resolved_output(input, output_dir, batch_dir, operation_of(mode_of(webp))) {
            Err(error) => StepView::Fail(path_failure_of(error)),
            Ok((directory, output_path)) => planned_transform(
                src,
                data,
                directory,
                output_path,
                sniffed_format(data),
                mode_of(webp),
                quality,
            ),
        },
    }
}

/// The step that writes the resized copy of one source file: a decode
/// failure first, then a path failure, then a codec failure where the
/// request cannot be carried out or the resized image cannot be encoded in
/// the format that goes with the file's extension.
pub open spec fn planned_resize(
    input: Seq<char>,
    data: Seq<u8>,
    output_dir: Option<Seq<char>>,
    batch_dir: Option<Seq<char>>,
    width: Option<u32>,
    height: Option<u32>,
) -> StepView {
    match decoded(data) {
        Err(text) => StepView::Fail(ErrorView { kind: ErrorKind::Decode, reason: text }),
        Ok(src) => match resolved_output(input, output_dir, batch_dir, Operation::Resize) {
            Err(error) => StepView::Fail(path_failure_of(error)),
            Ok((directory, output_path)) => if resizable(src, width, height) {
                match encoding_for_extension(
                    resized(src, width, height),
                    extension_of(file_name(input).unwrap()).unwrap(),
                ) {
                    Ok(bytes) => StepView::Write { directory, output_path, bytes, stats: None },
                    Err(Some(text)) => StepView::Fail(
                        ErrorView { kind: ErrorKind::Codec, reason: text },
                    ),
                    Err(None) => StepView::Fail(
                        ErrorView { kind: ErrorKind::Codec, reason: unknown_extension_reason() },
                    ),
                }
            } else {
                StepView::Fail(ErrorView { kind: ErrorKind::Codec, reason: unresizable_reason() })
            },
        },
    }
}

/// Decodes an image from the bytes of a file, whatever the file is called.
/// Fails with a decode error, in the decoder's words, exactly where the
/// decoder does.
pub fn load_image(data: &[u8]) -> (res: Result<DynamicImage, PipelineError>)
    ensures
        match decoded(data@) {
            Ok(src) => res matches Ok(img) && raster_of(&img) == src,
            Err(text) => res matches Err(e) && e@ == (ErrorView {
                kind: ErrorKind::Decode,
                reason: text,
            }),
        },
{
    match decode(data) {
        Ok(img) => Ok(img),
        Err(reason) => Err(PipelineError { kind: ErrorKind::Decode, reason }),
    }
}

/// Compresses an image in its own format. `data` is the file the image came
/// from. Fails with `UnsupportedFormat` exactly for a format that is neither
/// JPEG nor PNG, and with a codec error exactly where the encoder or the
/// optimiser does.
pub fn compress_image(img: &DynamicImage, data: &[u8], format: ImageFormat, quality: u8) -> (res:
    Result<Compressed, PipelineError>)
    ensures
        match compressed_image(raster_of(img), data@, format, quality) {
            Ok((bytes, stats)) => res matches Ok(c) && c.bytes@ == bytes && c.stats == stats,
            Err(error) => res matches Err(e) && e@ == error,
        },
{
    match format {
        ImageFormat::Jpeg => compress_jpeg(img, data.len() as u64, quality),
        ImageFormat::Png => compress_png(data),
        _ => Err(
            PipelineError::new(ErrorKind::UnsupportedFormat, "no compression for this format"),
        ),
    }
}

/// Hands an image over for conversion to WebP at `output`.
pub fn convert_to_webp(img: DynamicImage, input_size: u64, output: ResolvedOutput) -> (step: Step)
    ensures
        step@ == (StepView::Encode {
            directory: output.directory@,
            output_path: output.path@,
            image: raster_of(&img),
            input_size,
        }),
{
    Step::Encode { directory: output.directory, output_path: output.path, image: img, input_size }
}

/// The step that converts a source file to WebP: the decoded image handed
/// over for encoding, or a decode failure.
pub open spec fn planned_conversion(data: Seq<u8>, directory: Seq<char>, output_path: Seq<char>) -> StepView {
    match decoded(data) {
        Ok(src) => StepView::Encode {
            directory,
            output_path,
            image: src,
            input_size: data.len() as u64,
        },
        Err(text) => StepView::Fail(ErrorView { kind: ErrorKind::Decode, reason: text }),
    }
}

/// Decodes a source file, whatever its format, and hands the image over for
/// conversion to WebP at `output`. Fails with a decode error exactly where
/// the decoder does.
pub fn image_to_webp(data: &[u8], output: ResolvedOutput) -> (step: Step)
    ensures
        step@ == planned_conversion(data@, output.directory@, output.path@),
{
    match load_image(data) {
        Ok(img) => convert_to_webp(img, data.len() as u64, output),
        Err(error) => Step::Fail(error),
    }
}

/// The step for a decoded image: by mode and format, compress it, hand it
/// over for conversion, or fail.
pub fn transform(
    img: DynamicImage,
    data: &[u8],
    output: ResolvedOutput,
    format: ImageFormat,
    mode: TransformMode,
    quality: u8,
) -> (step: Step)
    ensures
        step@ == planned_transform(
            raster_of(&img),
            data@,
            output.directory@,
            output.path@,
            format,
            mode,
            quality,
        ),
{
    match mode {
        TransformMode::ConvertToWebP => convert_to_webp(img, data.len() as u64, output),
        TransformMode::CompressInPlace => match compress_image(&img, data, format, quality) {
            Ok(c) => Step::Write {
                directory: output.directory,
                output_path: output.path,
                bytes: c.bytes,
                stats: Some(c.stats),
            },
            Err(error) => Step::Fail(error),
        },
    }
}

fn path_failure(cause: PathError) -> (error: PipelineError)
    ensures
        error@ == path_failure_of(cause),
{
    match cause {
        PathError::NoFileName => PipelineError::new(
            ErrorKind::Path,
            "the input path has no file name",
        ),
        PathError::NoExtension => PipelineError::new(
            ErrorKind::Path,
            "the file name has no extension",
        ),
    }
}

/// One source file to its step: compress it, or convert it where `webp` is
/// set. `input` is the file's path and `data` its content; the output goes
/// to `output_dir`, under `batch_dir` in it where that is given, or beside
/// the input where no directory is given.
pub fn process_image(
    input: &str,
    data: &[u8],
    output_dir: Option<&str>,
    batch_dir: Option<&str>,
    webp: bool,
    quality: u8,
) -> (step: Step)
    ensures
        step@ == planned_image(input@, data@, text_of(output_dir), text_of(batch_dir), webp, quality),
{
    let mode = if webp {
        TransformMode::ConvertToWebP
    } else {
        TransformMode::CompressInPlace
    };
    let op = match mode {
        TransformMode::CompressInPlace => Operation::Compress,
        TransformMode::ConvertToWebP => Operation::Convert,
    };
    match load_image(data) {
        Err(error) => Step::Fail(error),
        Ok(img) => {
            let format = guess_image_format(data);
            match resolve_output_path(input, output_dir, batch_dir, op) {
                Err(cause) => Step::Fail(path_failure(cause)),
                Ok(output) => transform(img, data, output, format, mode, quality),
            }
        },
    }
}

/// One source file to the step that writes its resized copy, named
/// `<stem>_resized.<ext>` and encoded in the format that goes with the
/// extension.
pub fn resize_and_save_image(
    input: &str,
    data: &[u8],
    output_dir: Option<&str>,
    batch_dir: Option<&str>,
    width: Option<u32>,
    height: Option<u32>,
) -> (step: Step)
    ensures
        step@ == planned_resize(
            input@,
            data@,
            text_of(output_dir),
            text_of(batch_dir),
            width,
            height,
        ),
{
    match load_image(data) {
        Err(error) => Step::Fail(error),
        Ok(img) => match resolve_output_path(input, output_dir, batch_dir, Operation::Resize) {
            Err(cause) => Step::Fail(path_failure(cause)),
            Ok(output) => match get_filename_and_extension(input) {
                None => Step::Fail(path_failure(PathError::NoExtension)),
                Some((_, ext)) => match try_resize_image(&img, width, height) {
                    None => Step::Fail(
                        PipelineError::new(
                            ErrorKind::Codec,
                            "the image cannot be resized to this size",
                        ),
                    ),
                    Some(smaller) => match encode_for_extension(&smaller, ext.as_str()) {
                        Ok(bytes) => Step::Write {
                            directory: output.directory,
                            output_path: output.path,
                            bytes,
                            stats: None,
                        },
                        Err(Some(reason)) => Step::Fail(
                            PipelineError { kind: ErrorKind::Codec, reason },
                        ),
                        Err(None) => Step::Fail(
                            PipelineError::new(
                                ErrorKind::Codec,
                                "no image format goes with the extension of the file",
                            ),
                        ),
                    },
                },
            },
        },
    }
}


/// The steps for one item: the resized copy where one is asked for, and the
/// compressed or converted file.
#[derive(Debug)]
pub struct ItemPlan {
    pub resize: Option<Step>,
    pub transform: Step,
}

/// One image, alone or as one of a directory's files, to its steps. Where a
/// width or a height is given, a resized copy is written beside the output;
/// the image is then compressed, or converted where `webp` is set, from the
/// source as it is and not from the resized copy. Neither step depends on
/// how the other ends.
pub fn process_single_image(
    input: &str,
    data: &[u8],
    output_dir: Option<&str>,
    batch_dir: Option<&str>,
    width: Option<u32>,
    height: Option<u32>,
    webp: bool,
    quality: u8,
) -> (plan: ItemPlan)
    ensures
        plan.transform@ == planned_image(
            input@,
            data@,
            text_of(output_dir),
            text_of(batch_dir),
            webp,
            quality,
        ),
        wants_resize(width, height) ==> (plan.resize matches Some(step) && step@ == planned_resize(
            input@,
            data@,
            text_of(output_dir),
            text_of(batch_dir),
            width,
            height,
        )),
        !wants_resize(width, height) ==> plan.resize is None,
{
    let asked = match (width, height) {
        (None, None) => false,
        _ => true,
    };
    let resize = if asked {
        Some(resize_and_save_image(input, data, output_dir, batch_dir, width, height))
    } else {
        None
    };
    let transform = process_image(input, data, output_dir, batch_dir, webp, quality);
    ItemPlan { resize, transform }
}

/// How an item ended.
#[derive(Debug)]
pub enum TransformOutcome {
    /// The output file was written. The sizes are there for a compression
    /// or a conversion, not for a resized copy.
    Success { output_path: String, stats: Option<CompressionStats> },
    /// Nothing usable was written for this input.
    Failure { input_path: String, error: PipelineError },
}

/// A `TransformOutcome` as plain values.
pub enum OutcomeView {
    Success { output_path: Seq<char>, stats: Option<CompressionStats> },
    Failure { input_path: Seq<char>, error: ErrorView },
}

impl View for TransformOutcome {
    type V = OutcomeView;

    open spec fn view(&self) -> OutcomeView {
        match self {
            TransformOutcome::Success { output_path, stats } => OutcomeView::Success {
                output_path: output_path@,
                stats: *stats,
            },
            TransformOutcome::Failure { input_path, error } => OutcomeView::Failure {
                input_path: input_path@,
                error: error@,
            },
        }
    }
}

/// The outcome of a step that was carried out: `written` is the length of
/// the file as written, or what went wrong. The size reported after is that
/// length; `input_size` is the size before, where there is one to report.
pub open spec fn concluded(
    input_path: Seq<char>,
    output_path: Seq<char>,
    input_size: Option<u64>,
    written: Result<u64, ErrorView>,
) -> OutcomeView {
    match written {
        Ok(length) => OutcomeView::Success {
            output_path,
            stats: match input_size {
                Some(size) => Some(CompressionStats { input_size: size, output_size: length }),
                None => None,
            },
        },
        Err(error) => OutcomeView::Failure { input_path, error },
    }
}

/// The outcome of an item from those of its two steps: the failure of the
/// resized copy where it failed, else the outcome of the transform.
pub open spec fn combined(resize: Option<OutcomeView>, transform: OutcomeView) -> OutcomeView {
    match resize {
        Some(OutcomeView::Failure { input_path, error }) => OutcomeView::Failure {
            input_path,
            error,
        },
        _ => transform,
    }
}

/// The outcome of a step that the caller carried out.
pub fn conclude(
    input_path: &str,
    output_path: String,
    input_size: Option<u64>,
    written: Result<u64, PipelineError>,
) -> (outcome: TransformOutcome)
    ensures
        outcome@ == concluded(
            input_path@,
            output_path@,
            input_size,
            match written {
                Ok(length) => Ok(length),
                Err(e) => Err(e@),
            },
        ),
{
    match written {
        Ok(length) => {
            let stats = match input_size {
                Some(size) => Some(CompressionStats { input_size: size, output_size: length }),
                None => None,
            };
            TransformOutcome::Success { output_path, stats }
        },
        Err(error) => TransformOutcome::Failure { input_path: String::from_str(input_path), error },
    }
}

/// The outcome of a step that failed before anything was to be written.
pub fn fail(input_path: &str, error: PipelineError) -> (outcome: TransformOutcome)
    ensures
        outcome@ == (OutcomeView::Failure { input_path: input_path@, error: error@ }),
{
    TransformOutcome::Failure { input_path: String::from_str(input_path), error }
}

/// The one outcome of an item from those of its steps.
pub fn item_outcome(resize: Option<TransformOutcome>, transform: TransformOutcome) -> (outcome:
    TransformOutcome)
    ensures
        outcome@ == combined(
            match resize {
                Some(r) => Some(r@),
                None => None,
            },
            transform@,
        ),
{
    match resize {
        Some(TransformOutcome::Failure { input_path, error }) => TransformOutcome::Failure {
            input_path,
            error,
        },
        _ => transform,
    }
}

/// One entry of a directory listing.
#[derive(Debug)]
pub struct DirEntry {
    pub path: String,
    pub is_file: bool,
}

/// What a run over a directory works on: where its output goes, under which
/// name the directory is mirrored below an output directory, and the files
/// to process.
#[derive(Debug)]
pub struct DirectoryPlan {
    pub output_base: String,
    pub batch_dir: Option<String>,
    pub items: Vec<String>,
}

/// The paths of the regular files among `entries`, in the order of the
/// listing. Directories and whatever else is no regular file are left out.
pub open spec fn work_items(entries: Seq<DirEntry>) -> Seq<Seq<char>>
    decreases entries.len(),
{
    if entries.len() == 0 {
        Seq::empty()
    } else if entries.last().is_file {
        work_items(entries.drop_last()).push(entries.last().path@)
    } else {
        work_items(entries.drop_last())
    }
}

/// The text of a name that may be missing.
pub open spec fn text_of_owned(name: Option<String>) -> Option<Seq<char>> {
    match name {
        Some(n) => Some(n@),
        None => None,
    }
}

/// The texts of a list of paths.
pub open spec fn texts_of(paths: Seq<String>) -> Seq<Seq<char>> {
    Seq::new(paths.len(), |i: int| paths[i]@)
}

/// Plans a run over the directory `input_path` with the listing `entries`.
/// With an output directory, the output goes below it into a directory named
/// like the input directory, which must then have a name; without one, the
/// output goes into the input directory itself. Only the regular files
/// directly in the listing are processed, in the listing's order.
pub fn process_directory(input_path: &str, entries: &Vec<DirEntry>, output_dir: Option<&str>) -> (res:
    Result<DirectoryPlan, PipelineError>)
    ensures
        match output_dir {
            None => res matches Ok(plan) && plan.output_base@ == input_path@ && plan.batch_dir
                is None && texts_of(plan.items@) == work_items(entries@),
            Some(dir) => match file_name(input_path@) {
                Some(name) => res matches Ok(plan) && plan.output_base@ == join(dir@, name)
                    && text_of_owned(plan.batch_dir) == Some(name) && texts_of(plan.items@)
                    == work_items(entries@),
                None => res matches Err(e) && e@ == (ErrorView {
                    kind: ErrorKind::Path,
                    reason: unnamed_directory_reason(),
                }),
            },
        },
{
    let (output_base, batch_dir) = match output_dir {
        None => (String::from_str(input_path), None),
        Some(dir) => match path_file_name(input_path) {
            Some(name) => (join_path(dir, name.as_str()), Some(name)),
            None => {
                return Err(PipelineError::new(ErrorKind::Path, "the input directory has no name"));
            },
        },
    };
    let mut items: Vec<String> = Vec::new();
    let mut i: usize = 0;
    while i < entries.len()
        invariant
            i <= entries.len(),
            texts_of(items@) == work_items(entries@.subrange(0, i as int)),
        decreases entries.len() - i,
    {
        let ghost before = entries@.subrange(0, i as int);
        let ghost after = entries@.subrange(0, i + 1);
        proof {
            assert(after.drop_last() =~= before);
            assert(after.last() == entries@[i as int]);
        }
        if entries[i].is_file {
            let ghost old_items = items@;
            items.push(entries[i].path.clone());
            proof {
                assert(texts_of(items@) =~= texts_of(old_items).push(entries@[i as int].path@));
            }
        }
        i += 1;
    }
    proof {
        assert(entries@.subrange(0, i as int) =~= entries@);
    }
    Ok(DirectoryPlan { output_base, batch_dir, items })
}

/// Two compressions of the same source with the same settings give the same
/// bytes and the same sizes: whatever two runs of `compress_image` returned
/// for one image, one file, one format and one quality is equal.
pub proof fn lemma_compression_is_repeatable(
    src: Raster,
    data: Seq<u8>,
    format: ImageFormat,
    quality: u8,
    first: Compressed,
    second: Compressed,
)
    requires
        compressed_image(src, data, format, quality) == Ok::<
            (Seq<u8>, CompressionStats),
            ErrorView,
        >((first.bytes@, first.stats)),
        compressed_image(src, data, format, quality) == Ok::<
            (Seq<u8>, CompressionStats),
            ErrorView,
        >((second.bytes@, second.stats)),
    ensures
        first.bytes@ == second.bytes@,
        first.stats == second.stats,
{
}

/// Two runs over the same source file with the same settings plan the same
/// step: the same output path, and the same bytes to write.
pub proof fn lemma_processing_is_repeatable(
    input: Seq<char>,
    data: Seq<u8>,
    output_dir: Option<Seq<char>>,
    batch_dir: Option<Seq<char>>,
    webp: bool,
    quality: u8,
    first: Step,
    second: Step,
)
    requires
        first@ == planned_image(input, data, output_dir, batch_dir, webp, quality),
        second@ == planned_image(input, data, output_dir, batch_dir, webp, quality),
    ensures
        first@ == second@,
{
}

/// A compression reports as the size after the length of the bytes it
/// gives to write, for every file that a program's memory can hold.
pub proof fn lemma_reported_size_is_written_length(
    src: Raster,
    data: Seq<u8>,
    format: ImageFormat,
    quality: u8,
)
    ensures
        compressed_image(src, data, format, quality) matches Ok((bytes, stats)) ==> (bytes.len()
            <= u64::MAX ==> stats.output_size == bytes.len()),
{
}

/// Compression handles JPEG and PNG and nothing else: for every other format
/// it fails as unsupported, whatever the image holds.
pub proof fn lemma_unsupported_is_never_compressed(src: Raster, data: Seq<u8>, quality: u8)
    ensures
        compressed_image(src, data, ImageFormat::Unsupported, quality) matches Err(e) && e.kind
            == ErrorKind::UnsupportedFormat,
        compressed_image(src, data, ImageFormat::WebP, quality) matches Err(e) && e.kind
            == ErrorKind::UnsupportedFormat,
{
}

} // verus!
