//! The document reader interface. Reading real files is a driver's job: a
//! driver wraps its filesystem access in `MarkdownProcessing` and hands the
//! text it reads to the verified pipeline functions.

use crate::PipelineError;
use vstd::prelude::*;

verus! {

/// The two directories one processing run works between.
pub struct MarkdownProcessor {
    pub input_path: String,
    pub output_path: String,
}

/// A source of raw document text, keyed by document path.
pub trait MarkdownProcessing {
    fn process_markdown(&self, file_path: &str) -> Result<String, PipelineError>;
}

} // verus!
