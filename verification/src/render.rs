//! Rendering diagnostics against source text.
//!
//! The snippet rendering itself is done by the `annotate_snippets`
//! crate.  That renderer is safe only on part of its input space: a span
//! beyond the text is rejected with a panic, a byte offset inside a
//! multi-byte character breaks its slicing, and a line wider than its
//! terminal budget sends it into a margin-trimming path whose arithmetic
//! can underflow.  The library therefore checks the source text first —
//! ASCII, tab-free, no line over [`MAX_RENDER_COLUMNS`] columns — and
//! forces the span inside the text; on any other input it renders the
//! diagnostic in a one-line form of its own instead of calling out.

use vstd::prelude::*;

use crate::diag::{Diagnostic, DiagV, Severity, Span};
use vstd::string::{StrSliceExecFns, StringExecFns};

verus! {

broadcast use vstd::std_specs::vec::group_vec_axioms, vstd::string::group_string_axioms;

/// The widest source line the snippet renderer is handed.
///
/// The renderer lays lines out into a 140-column terminal, minus a
/// line-number gutter of at most 23 columns; a line that fits in 100
/// columns therefore never enters its margin-trimming path, whose
/// arithmetic underflows on some inputs.
pub const MAX_RENDER_COLUMNS: usize = 100;

/// The length of the run of non-newline characters ending at position
/// `j` — the width of the line so far, with no tabs in the text.
pub open spec fn line_run(s: Seq<char>, j: int) -> int
    decreases j + 1,
{
    if j < 0 || j >= s.len() || s[j] == '\n' {
        0
    } else {
        line_run(s, j - 1) + 1
    }
}

/// Text the snippet renderer handles safely: ASCII (so byte offsets are
/// character boundaries), tab-free (so columns are characters), and no
/// line wider than [`MAX_RENDER_COLUMNS`].
pub open spec fn renderable_source(s: Seq<char>) -> bool {
    &&& vstd::utf8::is_ascii_chars(s)
    &&& forall|j: int| 0 <= j < s.len() ==> #[trigger] s[j] != '\t'
    &&& forall|j: int| 0 <= j < s.len() ==> (#[trigger] line_run(s, j)) <= MAX_RENDER_COLUMNS
}

/// The text that the snippet renderer produces, as a function of the
/// message handed to it: the severity, the title, the optional origin
/// name, the source text, the annotated byte range, its label and the
/// optional help footer.
pub uninterp spec fn rendered_plain(
    error: bool,
    title: Seq<char>,
    origin: Option<Seq<char>>,
    source: Seq<char>,
    start: int,
    end: int,
    label: Seq<char>,
    help: Option<Seq<char>>,
) -> Seq<char>;

/// Relies on annotate_snippets: `Renderer::plain().render` formats the
/// message it is given — a compile-time constant style, a fixed
/// 140-column width, nothing read but the arguments.  The `requires`
/// keeps out everything its source does not handle: it panics on a range
/// beyond the text, it slices at byte offsets (sound only on character
/// boundaries), and its margin computation subtracts column counts that
/// can underflow once a line overflows the terminal budget —
/// `renderable_source` keeps every line inside it.
#[verifier::external_body]
fn render_snippet(
    error: bool,
    title: &str,
    origin: Option<&str>,
    source: &str,
    start: usize,
    end: usize,
    label: &str,
    help: Option<&str>,
) -> (r: String)
    requires
        start <= end,
        end <= source@.len(),
        renderable_source(source@),
    ensures
        r@ == rendered_plain(
            error,
            title@,
            origin.deep_view(),
            source@,
            start as int,
            end as int,
            label@,
            help.deep_view(),
        ),
{
    let level = if error { annotate_snippets::Level::Error } else { annotate_snippets::Level::Warning };
    let mut snippet = annotate_snippets::Snippet::source(source).annotation(
        level.span(start..end).label(label),
    );
    if let Some(o) = origin {
        snippet = snippet.origin(o);
    }
    let mut message = level.title(title).snippet(snippet);
    if let Some(h) = help {
        message = message.footer(annotate_snippets::Level::Help.title(h));
    }
    annotate_snippets::Renderer::plain().render(message).to_string()
}

/// Whether ASCII source text is safe to hand to the snippet renderer:
/// tab-free, and no line wider than [`MAX_RENDER_COLUMNS`].
fn lines_fit(source: &str) -> (r: bool)
    requires
        vstd::string::is_ascii(source),
    ensures
        r == renderable_source(source@),
{
    let bytes = source.as_bytes();
    let ghost s = source@;
    proof {
        assert(bytes@.len() == s.len());
        assert(forall|i: int| 0 <= i < s.len() ==> s[i] as u8 == bytes@[i]);
    }
    let mut j: usize = 0;
    let mut run: usize = 0;
    while j < bytes.len()
        invariant
            s == source@,
            vstd::utf8::is_ascii_chars(s),
            bytes@.len() == s.len(),
            forall|i: int| 0 <= i < s.len() ==> s[i] as u8 == bytes@[i],
            j <= bytes@.len(),
            run == line_run(s, j - 1),
            run <= j,
            forall|k: int| 0 <= k < j ==> #[trigger] s[k] != '\t',
            forall|k: int| 0 <= k < j ==> (#[trigger] line_run(s, k)) <= MAX_RENDER_COLUMNS,
        decreases bytes@.len() - j,
    {
        proof {
            assert(s[j as int] as u8 == bytes@[j as int]);
            assert('\0' <= s[j as int] <= '\u{7f}');
            assert(s[j as int] == '\n' <==> bytes@[j as int] == 10u8);
            assert(s[j as int] == '\t' <==> bytes@[j as int] == 9u8);
        }
        if bytes[j] == 9 {
            return false;
        }
        if bytes[j] == 10 {
            run = 0;
        } else {
            run = run + 1;
            if run > MAX_RENDER_COLUMNS {
                proof {
                    assert(line_run(s, j as int) > MAX_RENDER_COLUMNS);
                }
                return false;
            }
        }
        proof {
            assert(line_run(s, j as int) == run);
        }
        j = j + 1;
    }
    true
}

/// The smaller of two numbers.
pub open spec fn min_int(a: int, b: int) -> int {
    if a <= b {
        a
    } else {
        b
    }
}

/// A span forced inside a text of `n` characters, start before end.
pub open spec fn clamp_span(s: Span, n: int) -> (int, int) {
    let start = min_int(s.start as int, n);
    let end = min_int(if s.end >= s.start {
        s.end as int
    } else {
        s.start as int
    }, n);
    (start, end)
}

/// The one-line form used where the snippet renderer cannot be.
pub open spec fn rendered_fallback(d: DiagV) -> Seq<char> {
    d.title + ": "@ + d.label
}

/// What rendering one diagnostic against its source text yields.
pub open spec fn rendered_diag(d: DiagV, source: Seq<char>, origin: Seq<char>) -> Seq<char> {
    if renderable_source(source) {
        rendered_plain(
            d.severity is Error,
            d.title,
            Some(origin),
            source,
            clamp_span(d.span, source.len() as int).0,
            clamp_span(d.span, source.len() as int).1,
            d.label,
            d.help,
        )
    } else {
        rendered_fallback(d)
    }
}

/// Render one diagnostic against the source text it refers to.
///
/// For text the snippet renderer handles safely, the diagnostic's span,
/// forced inside the text, is annotated in its source context; for any
/// other text the diagnostic is rendered in its one-line form.
pub fn render_diagnostic(d: &Diagnostic, source: &str, origin: &str) -> (r: String)
    ensures
        r@ == rendered_diag(d@, source@, origin@),
{
    if source.is_ascii() && lines_fit(source) {
        let n = source.unicode_len();
        let start = if d.span.start <= n {
            d.span.start
        } else {
            n
        };
        let raw_end = if d.span.end >= d.span.start {
            d.span.end
        } else {
            d.span.start
        };
        let end = if raw_end <= n {
            raw_end
        } else {
            n
        };
        let error = match d.severity {
            Severity::Error => true,
            Severity::Warning => false,
        };
        let help = match &d.help {
            Some(h) => Some(h.as_str()),
            None => None,
        };
        render_snippet(error, d.title.as_str(), Some(origin), source, start, end, d.label.as_str(), help)
    } else {
        let mut out = d.title.clone();
        out.append(": ");
        out.append(d.label.as_str());
        proof {
            assert(out@ =~= rendered_fallback(d@));
        }
        out
    }
}

} // verus!
