//! Failures anchored to an exact byte range of a named source file.

use vstd::prelude::*;

use crate::diagnostic_kind::DiagnosticKind;

verus! {

/// A failure bound to a location in a specific source file.
///
/// The path is required in every instance: when the source text is missing at
/// construction time it can still be read from the file system later, during
/// conversion into a render-ready diagnostic, but the path can never be
/// recovered from source text alone.
#[derive(Debug)]
pub struct TraceableError {
    pub path: String,
    pub start: usize,
    pub end: usize,
    pub error_message: String,
    pub title: String,
    pub source: Option<String>,
    pub kind: DiagnosticKind,
}

impl TraceableError {
    /// A valid instance names a file and spans a well-ordered byte range.
    pub open spec fn wf(self) -> bool {
        &&& self.path@.len() > 0
        &&& self.start <= self.end
    }

    /// The value that [`TraceableError::with_source`] returns: the same
    /// failure, with the given source text attached.
    pub open spec fn with_source_spec(self, source: String) -> TraceableError {
        TraceableError { source: Some(source), ..self }
    }

    /// The value that [`TraceableError::with_kind`] returns: the same
    /// failure, reclassified.
    pub open spec fn with_kind_spec(self, kind: DiagnosticKind) -> TraceableError {
        TraceableError { kind, ..self }
    }

    /// Constructs a failure anchored to `path` at byte offsets
    /// `start..end`, with no captured source text and the default
    /// classification.
    ///
    /// The caller guarantees a non-empty path and `start <= end`.
    pub fn from_path(
        path: String,
        start: usize,
        end: usize,
        title: String,
        error_message: String,
    ) -> (r: Self)
        requires
            path@.len() > 0,
            start <= end,
        ensures
            r == (TraceableError {
                path,
                start,
                end,
                error_message,
                title,
                source: None,
                kind: DiagnosticKind::Internal,
            }),
            r.wf(),
    {
        Self {
            path,
            start,
            end,
            error_message,
            source: None,
            title,
            kind: DiagnosticKind::Internal,
        }
    }

    /// Attaches an already-captured snapshot of the file's text, leaving
    /// every other field unchanged. Consumes the receiver, so call sites can
    /// chain it directly after [`TraceableError::from_path`].
    pub fn with_source(self, source: String) -> (r: Self)
        ensures
            r == self.with_source_spec(source),
            r.wf() == self.wf(),
    {
        let mut updated = self;
        updated.source = Some(source);
        updated
    }

    /// Overrides the classification, leaving every other field unchanged.
    /// Consumes the receiver, builder style.
    pub fn with_kind(self, kind: DiagnosticKind) -> (r: Self)
        ensures
            r == self.with_kind_spec(kind),
            r.wf() == self.wf(),
    {
        let mut updated = self;
        updated.kind = kind;
        updated
    }
}

/// Attaching source text and overriding the classification commute: the two
/// enrichments touch disjoint fields, so a builder chain may apply them in
/// either order and end at the same value.
pub proof fn lemma_builder_attachments_commute(
    t: TraceableError,
    source: String,
    kind: DiagnosticKind,
)
    ensures
        t.with_source_spec(source).with_kind_spec(kind) == t.with_kind_spec(
            kind,
        ).with_source_spec(source),
{
}

} // verus!
