//! The error taxonomy of the download core.
use vstd::prelude::*;

verus! {

/// Everything that can go wrong in an orchestration run. Binary resolution
/// and metadata-fetch failures abort immediately; a primary invocation
/// failure is either reclassified into a fallback attempt or surfaced as
/// `PrimaryInvocationFailed`; fallback failures are terminal.
#[derive(Debug, Clone)]
pub enum DownloadError {
    /// No candidate location holds the required external tool.
    BinaryNotFound,
    /// The requested output format is not one the policy supports.
    UnsupportedFormat,
    /// The metadata fetch exited non-zero or its output was unparsable.
    ExtractionFailed(String),
    /// The tuned invocation failed with an unrecoverable error text.
    PrimaryInvocationFailed(String),
    /// The relaxed second invocation failed too.
    FallbackInvocationFailed(String),
    /// The tool reported success but no produced file could be resolved.
    FileNotFound,
    /// A filesystem operation failed.
    IoError(String),
}

} // verus!
