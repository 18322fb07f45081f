//! The settings of one run.

use crate::pipeline::{mode_of, TransformMode};
use crate::resize::{is_valid_request, valid_request};
use vstd::prelude::*;

verus! {

/// What a run is asked to do.
#[derive(Debug)]
pub struct Args {
    /// Input image file or directory.
    pub input: String,
    /// Output directory; without one the output goes beside the input.
    pub output: Option<String>,
    /// Convert to WebP in place of compressing.
    pub webp: bool,
    /// Width of the resized copy.
    pub width: Option<u32>,
    /// Height of the resized copy.
    pub height: Option<u32>,
}

impl Args {
    /// What the run does to each image.
    pub fn mode(&self) -> (mode: TransformMode)
        ensures
            mode == mode_of(self.webp),
    {
        if self.webp {
            TransformMode::ConvertToWebP
        } else {
            TransformMode::CompressInPlace
        }
    }

    /// Whether the resize request is one to act on: it asks for no
    /// dimension of 0.
    pub fn has_valid_resize(&self) -> (valid: bool)
        ensures
            valid == valid_request(self.width, self.height),
    {
        is_valid_request(self.width, self.height)
    }
}

} // verus!
