//! Error and diagnostic representation layer for a multi-language build
//! pipeline.
//!
//! Every stage of the pipeline raises structured failures that can be traced
//! back to an exact byte range in a source file, classified by content kind,
//! wrapped around lower-level failures without losing them, and aggregated
//! from batched work into a single value.

pub mod diagnostic_kind;
pub mod error;
pub mod traceable;
