//! An idempotent multi-stage pipeline that turns a tree of source documents
//! into narrated audio chapters: document → dialogue transcript → narrated
//! audio → spoken intro → merged chapter audio. The library holds the
//! verified core — chapter identity, artifact location, the content
//! truncation policy, the stage executors and the orchestrator's transition
//! rules — modelled over an in-memory filesystem and scripted collaborators,
//! with skip-if-exists idempotence, dependency ordering and fail-fast proved
//! in `laws`. A driver supplies the real filesystem, the remote transcript
//! and narration providers and the audio concatenator, taking every decision
//! from the functions here.

pub mod artifacts;
pub mod config;
pub mod conversation;
pub mod fsmodel;
pub mod ids;
pub mod laws;
pub mod pipeline;
pub mod processor;
pub mod providers;
pub mod strings;
pub mod strmap;
pub mod truncate;

use vstd::prelude::*;

verus! {

/// The error taxonomy of the pipeline. Every failure a run can end with is
/// one of these; `DependencyMissing` alone is non-fatal (a stage skips the
/// document and goes on).
#[derive(Clone, Copy, Debug, PartialEq, Eq, Structural)]
pub enum PipelineError {
    /// A document path yields no usable chapter identifier.
    InvalidIdentifier,
    /// A transcript or narration call failed or returned unusable content.
    ProviderError,
    /// The audio concatenation tool exited with a failure.
    ExternalToolError,
    /// A stage was asked to run without its required upstream artifact.
    DependencyMissing,
    /// A filesystem read, write or stat failed.
    IoError,
}

} // verus!
