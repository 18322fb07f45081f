//! What can go wrong with one item of a run.

use vstd::prelude::*;

verus! {

/// The kinds of failure. Each stays with the item it happened to: the run
/// goes on with the next one.
#[derive(Clone, Copy, Debug, PartialEq, Eq, Structural)]
pub enum ErrorKind {
    /// The source could not be read as an image.
    Decode,
    /// The format was recognised, and no transform handles it.
    UnsupportedFormat,
    /// Encoding or optimising failed.
    Codec,
    /// No output path could be made from the input path.
    Path,
    /// Reading or writing a file failed.
    Io,
}

/// A failure: its kind, and the cause in words.
#[derive(Debug)]
pub struct PipelineError {
    pub kind: ErrorKind,
    pub reason: String,
}

/// A failure as plain values.
pub struct ErrorView {
    pub kind: ErrorKind,
    pub reason: Seq<char>,
}

impl View for PipelineError {
    type V = ErrorView;

    open spec fn view(&self) -> ErrorView {
        ErrorView { kind: self.kind, reason: self.reason@ }
    }
}

/// The cause given where compression is asked of a format other than JPEG
/// and PNG.
pub open spec fn unsupported_format_reason() -> Seq<char> {
    "no compression for this format"@
}

/// The cause given where an input path has no file name.
pub open spec fn no_file_name_reason() -> Seq<char> {
    "the input path has no file name"@
}

/// The cause given where the file name of an input path has no extension.
pub open spec fn no_extension_reason() -> Seq<char> {
    "the file name has no extension"@
}

/// The cause given where a resize request cannot be carried out.
pub open spec fn unresizable_reason() -> Seq<char> {
    "the image cannot be resized to this size"@
}

/// The cause given where no image format goes with a file's extension.
pub open spec fn unknown_extension_reason() -> Seq<char> {
    "no image format goes with the extension of the file"@
}

/// The cause given where an input directory has no name to mirror.
pub open spec fn unnamed_directory_reason() -> Seq<char> {
    "the input directory has no name"@
}

/// The name of a kind of failure, as it stands in messages.
pub open spec fn label_of(kind: ErrorKind) -> Seq<char> {
    match kind {
        ErrorKind::Decode => "decode error"@,
        ErrorKind::UnsupportedFormat => "unsupported format"@,
        ErrorKind::Codec => "codec error"@,
        ErrorKind::Path => "path error"@,
        ErrorKind::Io => "I/O error"@,
    }
}

/// The message for a failure on `input_path`: the path, the kind and the
/// cause, with `": "` between them.
pub open spec fn message_of(input_path: Seq<char>, kind: ErrorKind, reason: Seq<char>) -> Seq<char> {
    input_path + ": "@ + label_of(kind) + ": "@ + reason
}

impl ErrorKind {
    /// The name of this kind of failure.
    pub fn label(self) -> (label: &'static str)
        ensures
            label@ == label_of(self),
    {
        match self {
            ErrorKind::Decode => "decode error",
            ErrorKind::UnsupportedFormat => "unsupported format",
            ErrorKind::Codec => "codec error",
            ErrorKind::Path => "path error",
            ErrorKind::Io => "I/O error",
        }
    }
}

impl PipelineError {
    /// A failure of the given kind with the given cause.
    pub fn new(kind: ErrorKind, reason: &str) -> (error: PipelineError)
        ensures
            error@ == (ErrorView { kind, reason: reason@ }),
    {
        PipelineError { kind, reason: String::from_str(reason) }
    }

    /// The message that reports this failure for the input at `input_path`.
    /// It names the path and the kind of failure, so that no item fails
    /// without a trace.
    pub fn message(&self, input_path: &str) -> (text: String)
        ensures
            text@ == message_of(input_path@, self.kind, self.reason@),
    {
        let mut text = String::from_str(input_path);
        text.append(": ");
        text.append(self.kind.label());
        text.append(": ");
        text.append(self.reason.as_str());
        text
    }
}

} // verus!
