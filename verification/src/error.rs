//! The top-level failure sum type raised by every pipeline stage.

use vstd::prelude::*;

use anyhow::Error as AnyhowError;

use crate::diagnostic_kind::DiagnosticKind;
use crate::traceable::TraceableError;

verus! {

/// Declares `std::io::Error` so that the `Io` variant can carry an
/// underlying filesystem failure verbatim. The value is opaque here; it is
/// stored and handed onward, never inspected.
#[verifier::external_type_specification]
#[verifier::external_body]
pub struct ExIoError(std::io::Error);

/// Declares `anyhow::Error` so that the `Anyhow` variant can carry an
/// opaque third-party failure verbatim. The value is opaque here; it is
/// stored and handed onward, never inspected.
#[verifier::external_type_specification]
#[verifier::external_body]
pub struct ExAnyhowError(AnyhowError);

/// A failure raised by a pipeline stage.
///
/// A closed, recursive sum type: a bare internal message, a failure traced
/// to a source location, a wrapped filesystem failure, a wrapped opaque
/// failure, or an ordered batch of other failures (batches may contain
/// batches). Wrapping and aggregation never discard information; rendering
/// to a user-facing diagnostic happens in a collaborator outside this type.
#[derive(Debug)]
pub enum Error {
    InternalError(String),
    TraceableError(TraceableError),
    Io { source: std::io::Error },
    Anyhow { source: anyhow::Error },
    BatchErrors(Vec<Error>),
}

impl Error {
    /// The classification of each variant.
    ///
    /// A traced failure carries its own tag; a filesystem failure is `Io`;
    /// an opaque failure has no finer classification than `Internal`; and a
    /// batch may mix classifications, so it too resolves to the conservative
    /// `Internal` rather than singling out any element.
    pub open spec fn kind_spec(&self) -> DiagnosticKind {
        match self {
            Error::InternalError(_) => DiagnosticKind::Internal,
            Error::TraceableError(traceable) => traceable.kind,
            Error::Io { .. } => DiagnosticKind::Io,
            Error::Anyhow { .. } => DiagnosticKind::Internal,
            Error::BatchErrors(_) => DiagnosticKind::Internal,
        }
    }

    /// Returns the classification of this failure. Total: defined for every
    /// variant (see [`Error::kind_spec`]).
    pub fn kind(&self) -> (k: DiagnosticKind)
        ensures
            k == self.kind_spec(),
    {
        match self {
            Error::InternalError(_) => DiagnosticKind::Internal,
            Error::TraceableError(traceable) => traceable.kind,
            Error::Io { .. } => DiagnosticKind::Io,
            Error::Anyhow { .. } => DiagnosticKind::Internal,
            Error::BatchErrors(_) => DiagnosticKind::Internal,
        }
    }

    /// What [`Error::render`] returns: the message of a bare internal
    /// failure, and the empty string for every other variant.
    pub open spec fn render_spec(&self) -> Seq<char> {
        match self {
            Error::InternalError(message) => message@,
            _ => Seq::<char>::empty(),
        }
    }

    /// Renders this failure as text. An internal failure renders as its
    /// message verbatim; every other variant renders as the empty string by
    /// design: this type is a carrier of structured data, and the meaningful
    /// rendering of those variants is produced by the diagnostic
    /// collaborator downstream, not here.
    pub fn render(&self) -> (r: String)
        ensures
            r@ == self.render_spec(),
    {
        match self {
            Error::InternalError(message) => message.clone(),
            _ => String::new(),
        }
    }
}

impl Error {
    /// Merges the failures of many independent units of work into a single
    /// batch, preserving the caller-supplied order (typically submission
    /// order, for reproducible output). An empty collection yields an empty
    /// batch — still an `Error` value, distinguishable at the type level
    /// from "no failure raised"; callers decide whether an empty batch
    /// counts as success.
    pub fn aggregate(errors: Vec<Error>) -> (r: Error)
        ensures
            r == Error::BatchErrors(errors),
    {
        Error::BatchErrors(errors)
    }

    /// Flattens this failure into its leaves, in depth-first, left-to-right
    /// order (see [`leaves`]): batches dissolve into their elements,
    /// recursively, and every other variant stands alone.
    pub fn flatten(self) -> (r: Vec<Error>)
        ensures
            r@ == leaves(self),
        decreases self,
    {
        match self {
            Error::BatchErrors(batch) => flatten_batch(batch),
            other => {
                let mut singleton: Vec<Error> = Vec::new();
                singleton.push(other);
                singleton
            },
        }
    }
}

/// Flattens each element of a batch in order and concatenates the results.
fn flatten_batch(batch: Vec<Error>) -> (r: Vec<Error>)
    ensures
        r@ == leaves_of_seq(batch@),
    decreases batch@,
{
    let mut rest = batch;
    if rest.len() == 0 {
        Vec::new()
    } else {
        let first = rest.remove(0);
        proof {
            assert(first == batch@[0]);
            assert(rest@ =~= batch@.subrange(1, batch@.len() as int));
            assert(decreases_to!(batch@ => batch@[0]));
            assert(decreases_to!(batch@ => batch@.subrange(1, batch@.len() as int)));
        }
        let mut flattened = first.flatten();
        let mut tail = flatten_batch(rest);
        flattened.append(&mut tail);
        proof {
            assert(flattened@ =~= leaves_of_seq(batch@));
        }
        flattened
    }
}

/// The leaves of a failure, in depth-first, left-to-right order: the failure
/// itself when it is not a batch, else the leaves of the batch's elements in
/// their original order. Nested batches contribute their own leaves in
/// place, so no failure is ever dropped or reordered by aggregation.
pub open spec fn leaves(e: Error) -> Seq<Error>
    decreases e,
{
    match e {
        Error::BatchErrors(batch) => leaves_of_seq(batch@),
        _ => seq![e],
    }
}

/// The concatenation of the leaves of each element, in order.
pub open spec fn leaves_of_seq(errors: Seq<Error>) -> Seq<Error>
    decreases errors,
{
    if errors.len() == 0 {
        Seq::<Error>::empty()
    } else {
        leaves(errors[0]) + leaves_of_seq(errors.subrange(1, errors.len() as int))
    }
}

/// A filesystem failure converts implicitly into [`Error::Io`], carried
/// unchanged, so raise sites need not name the variant.
impl From<std::io::Error> for Error {
    fn from(source: std::io::Error) -> Self {
        Error::Io { source }
    }
}

impl vstd::std_specs::convert::FromSpecImpl<std::io::Error> for Error {
    open spec fn obeys_from_spec() -> bool {
        true
    }

    open spec fn from_spec(source: std::io::Error) -> Error {
        Error::Io { source }
    }
}

/// An opaque external failure converts implicitly into [`Error::Anyhow`],
/// carried unchanged, so raise sites need not name the variant.
impl From<anyhow::Error> for Error {
    fn from(source: anyhow::Error) -> Self {
        Error::Anyhow { source }
    }
}

impl vstd::std_specs::convert::FromSpecImpl<anyhow::Error> for Error {
    open spec fn obeys_from_spec() -> bool {
        true
    }

    open spec fn from_spec(source: anyhow::Error) -> Error {
        Error::Anyhow { source }
    }
}

/// Aggregation preserves order: the leaves of a batch are the leaves of its
/// elements, concatenated left to right, so flattening an aggregate visits
/// the aggregated failures exactly in the order they were supplied.
pub proof fn lemma_batch_preserves_order(batch: Vec<Error>)
    ensures
        leaves(Error::BatchErrors(batch)) == leaves_of_seq(batch@),
{
}

/// The leaves of a concatenation are the concatenation of the leaves:
/// splitting or joining batches never reorders failures across the split.
pub proof fn lemma_leaves_of_seq_concat(a: Seq<Error>, b: Seq<Error>)
    ensures
        leaves_of_seq(a + b) == leaves_of_seq(a) + leaves_of_seq(b),
    decreases a,
{
    if a.len() == 0 {
        assert(a + b =~= b);
        assert(leaves_of_seq(a) + leaves_of_seq(b) =~= leaves_of_seq(b));
    } else {
        let joined = a + b;
        assert(joined[0] == a[0]);
        assert(joined.subrange(1, joined.len() as int) =~= a.subrange(1, a.len() as int) + b);
        lemma_leaves_of_seq_concat(a.subrange(1, a.len() as int), b);
        assert(leaves_of_seq(a + b) =~= leaves_of_seq(a) + leaves_of_seq(b));
    }
}

/// Flattening a batch of non-batch failures reproduces them exactly: when no
/// element is itself a batch, the leaves of the sequence are the sequence.
pub proof fn lemma_leaves_reproduce_non_batches(errors: Seq<Error>)
    requires
        forall|i: int| 0 <= i < errors.len() ==> !(#[trigger] errors[i] is BatchErrors),
    ensures
        leaves_of_seq(errors) == errors,
    decreases errors,
{
    if errors.len() == 0 {
        assert(leaves_of_seq(errors) =~= errors);
    } else {
        let tail = errors.subrange(1, errors.len() as int);
        lemma_leaves_reproduce_non_batches(tail);
        assert(leaves(errors[0]) == seq![errors[0]]);
        assert(leaves_of_seq(errors) =~= errors);
    }
}

/// An empty aggregation is not the absence of failure: it is a value of the
/// `BatchErrors` variant whose batch is empty, and it has no leaves.
pub proof fn lemma_empty_batch_is_not_success(batch: Vec<Error>)
    requires
        batch@.len() == 0,
    ensures
        Error::BatchErrors(batch) is BatchErrors,
        leaves(Error::BatchErrors(batch)) == Seq::<Error>::empty(),
{
}

/// Classification is total: every variant of `Error` resolves to a defined
/// `DiagnosticKind`. A traced failure keeps its own tag, a filesystem
/// failure is `Io`, and an opaque or aggregated failure resolves to the
/// conservative `Internal`.
pub proof fn lemma_classification_total(e: Error)
    ensures
        e is InternalError ==> e.kind_spec() == DiagnosticKind::Internal,
        e is TraceableError ==> e.kind_spec() == e->TraceableError_0.kind,
        e is Io ==> e.kind_spec() == DiagnosticKind::Io,
        e is Anyhow ==> e.kind_spec() == DiagnosticKind::Internal,
        e is BatchErrors ==> e.kind_spec() == DiagnosticKind::Internal,
{
}

/// Wrapping preserves identity: converting a filesystem failure or an opaque
/// external failure into an [`Error`] stores the original value itself, so
/// nothing of it — in particular its message — is lost or truncated.
pub proof fn lemma_wrap_preserves_identity(io_failure: std::io::Error, opaque: anyhow::Error)
    ensures
        <Error as vstd::std_specs::convert::FromSpec<std::io::Error>>::from_spec(io_failure)
            == (Error::Io { source: io_failure }),
        <Error as vstd::std_specs::convert::FromSpec<anyhow::Error>>::from_spec(opaque)
            == (Error::Anyhow { source: opaque }),
{
}

} // verus!
