//! Classification tags for diagnostics.

use vstd::prelude::*;

verus! {

/// Classifies a diagnostic by the kind of source content it concerns.
///
/// Each variant has a fixed, stable lowercase rendering (see
/// [`DiagnosticKind::render`]); downstream tooling matches on those strings,
/// so the mapping must never change for variants already shipped.
#[derive(Clone, Copy, Debug, PartialEq, Eq, Structural)]
pub enum DiagnosticKind {
    JavaScript,
    Typescript,
    Jsx,
    Tsx,
    Scss,
    Css,
    Internal,
    Io,
    Json,
    Html,
}

impl DiagnosticKind {
    /// The canonical rendering of each variant, as a sequence of characters.
    pub open spec fn render_spec(self) -> Seq<char> {
        match self {
            DiagnosticKind::JavaScript => "javascript"@,
            DiagnosticKind::Typescript => "typescript"@,
            DiagnosticKind::Jsx => "jsx"@,
            DiagnosticKind::Tsx => "tsx"@,
            DiagnosticKind::Scss => "scss"@,
            DiagnosticKind::Css => "css"@,
            DiagnosticKind::Internal => "internal"@,
            DiagnosticKind::Io => "io"@,
            DiagnosticKind::Json => "json"@,
            DiagnosticKind::Html => "html"@,
        }
    }

    /// Returns the canonical lowercase tag for this variant.
    ///
    /// Total: every variant has a rendering. The strings are stable and kept
    /// in snake case for consistency.
    pub fn render(self) -> (r: &'static str)
        ensures
            r@ == self.render_spec(),
    {
        match self {
            DiagnosticKind::JavaScript => "javascript",
            DiagnosticKind::Typescript => "typescript",
            DiagnosticKind::Jsx => "jsx",
            DiagnosticKind::Tsx => "tsx",
            DiagnosticKind::Scss => "scss",
            DiagnosticKind::Css => "css",
            DiagnosticKind::Internal => "internal",
            DiagnosticKind::Io => "io",
            DiagnosticKind::Json => "json",
            DiagnosticKind::Html => "html",
        }
    }
}

/// The default classification is `Internal`: a diagnostic that has not been
/// tagged with a content kind is treated as an internal one.
impl Default for DiagnosticKind {
    fn default() -> (r: Self)
        ensures
            r == DiagnosticKind::Internal,
    {
        DiagnosticKind::Internal
    }
}

/// Reveals the contents of every rendering literal.
proof fn reveal_renderings()
    ensures
        "javascript"@ =~= seq!['j', 'a', 'v', 'a', 's', 'c', 'r', 'i', 'p', 't'],
        "typescript"@ =~= seq!['t', 'y', 'p', 'e', 's', 'c', 'r', 'i', 'p', 't'],
        "jsx"@ =~= seq!['j', 's', 'x'],
        "tsx"@ =~= seq!['t', 's', 'x'],
        "scss"@ =~= seq!['s', 'c', 's', 's'],
        "css"@ =~= seq!['c', 's', 's'],
        "internal"@ =~= seq!['i', 'n', 't', 'e', 'r', 'n', 'a', 'l'],
        "io"@ =~= seq!['i', 'o'],
        "json"@ =~= seq!['j', 's', 'o', 'n'],
        "html"@ =~= seq!['h', 't', 'm', 'l'],
{
    reveal_strlit("javascript");
    reveal_strlit("typescript");
    reveal_strlit("jsx");
    reveal_strlit("tsx");
    reveal_strlit("scss");
    reveal_strlit("css");
    reveal_strlit("internal");
    reveal_strlit("io");
    reveal_strlit("json");
    reveal_strlit("html");
}

/// Every variant renders to a non-empty, all-lowercase string.
pub proof fn lemma_render_nonempty_lowercase(k: DiagnosticKind)
    ensures
        k.render_spec().len() > 0,
        forall|i: int|
            0 <= i < k.render_spec().len() ==> 'a' <= #[trigger] k.render_spec()[i]
                && k.render_spec()[i] <= 'z',
{
    reveal_renderings();
}

/// No two distinct variants render to the same string.
pub proof fn lemma_render_injective(a: DiagnosticKind, b: DiagnosticKind)
    ensures
        a.render_spec() == b.render_spec() ==> a == b,
{
    reveal_renderings();
    if a.render_spec() == b.render_spec() {
        assert(a.render_spec().len() == b.render_spec().len());
        assert(a.render_spec()[0] == b.render_spec()[0]);
    }
}

} // verus!
