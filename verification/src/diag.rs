//! Diagnostics and the per-compilation-unit reporter.
//!
//! A diagnostic records a severity, a policy category, a title, the byte
//! range of source text it refers to, a label for that range, and an
//! optional help text.  The reporter accumulates diagnostics in source
//! pre-order and tracks whether a fatal one has been seen.

use vstd::prelude::*;

verus! {

broadcast use vstd::std_specs::vec::group_vec_axioms, vstd::string::group_string_axioms;

/// A byte range into the source text of one compilation unit.
#[derive(Clone, Copy, Debug, PartialEq, Eq, Structural)]
pub struct Span {
    pub start: usize,
    pub end: usize,
}

/// How severe a diagnostic is.
#[derive(Clone, Copy, Debug, PartialEq, Eq, Structural)]
pub enum Severity {
    Error,
    Warning,
}

/// Why a diagnostic was produced.
///
/// User-input errors and structural errors are fatal: the pass still runs
/// to completion, but the unit is reported as failed.  Restriction
/// violations and unsupported constructs are recoverable per node.
#[derive(Clone, Copy, Debug, PartialEq, Eq, Structural)]
pub enum Category {
    UserInputError,
    RestrictionViolation,
    UnsupportedConstruct,
    StructuralError,
}

/// One structured diagnostic.
#[derive(Debug, PartialEq, Eq)]
pub struct Diagnostic {
    pub severity: Severity,
    pub category: Category,
    pub title: String,
    pub span: Span,
    pub label: String,
    pub help: Option<String>,
}

/// The mathematical content of a `Diagnostic`.
#[verifier::ext_equal]
pub struct DiagV {
    pub severity: Severity,
    pub category: Category,
    pub title: Seq<char>,
    pub span: Span,
    pub label: Seq<char>,
    pub help: Option<Seq<char>>,
}

impl View for Diagnostic {
    type V = DiagV;

    open spec fn view(&self) -> DiagV {
        DiagV {
            severity: self.severity,
            category: self.category,
            title: self.title@,
            span: self.span,
            label: self.label@,
            help: self.help.deep_view(),
        }
    }
}

/// Whether a diagnostic of this category ends the compilation unit in failure.
pub open spec fn is_fatal(c: Category) -> bool {
    c is UserInputError || c is StructuralError
}

/// Accumulates the diagnostics of one compilation unit, in the order the
/// offending nodes are discovered, together with a flag that records
/// whether any of them was fatal.
#[derive(Debug)]
pub struct Reporter {
    diags: Vec<Diagnostic>,
    fatal: bool,
}

impl View for Reporter {
    type V = Seq<DiagV>;

    closed spec fn view(&self) -> Seq<DiagV> {
        Seq::new(self.diags@.len(), |i: int| self.diags@[i]@)
    }
}

impl Reporter {
    /// The reporter's fatal flag agrees with its diagnostic sequence.
    pub closed spec fn wf(&self) -> bool {
        self.fatal <==> exists|i: int| 0 <= i < self@.len() && is_fatal(self@[i].category)
    }

    /// A fresh reporter with no diagnostics.
    pub fn new() -> (r: Reporter)
        ensures
            r@ =~= Seq::<DiagV>::empty(),
            r.wf(),
    {
        Reporter { diags: Vec::new(), fatal: false }
    }

    /// Append one diagnostic; earlier diagnostics are never changed.
    pub fn report(&mut self, d: Diagnostic)
        requires
            old(self).wf(),
        ensures
            final(self)@ =~= old(self)@.push(d@),
            final(self).wf(),
    {
        let is_f = match d.category {
            Category::UserInputError => true,
            Category::StructuralError => true,
            Category::RestrictionViolation => false,
            Category::UnsupportedConstruct => false,
        };
        self.fatal = self.fatal || is_f;
        self.diags.push(d);
        proof {
            assert(self@ =~= old(self)@.push(d@));
            if self.fatal {
                if is_f {
                    assert(is_fatal(self@[self@.len() - 1].category));
                } else {
                    let i = choose|i: int|
                        0 <= i < old(self)@.len() && is_fatal(old(self)@[i].category);
                    assert(is_fatal(self@[i].category));
                }
            }
        }
    }

    /// How many diagnostics have been reported.
    pub fn len(&self) -> (n: usize)
        ensures
            n == self@.len(),
    {
        self.diags.len()
    }

    /// Read one reported diagnostic.
    pub fn get(&self, i: usize) -> (d: &Diagnostic)
        requires
            i < self@.len(),
        ensures
            d@ == self@[i as int],
    {
        &self.diags[i]
    }

    /// Whether a fatal diagnostic has been reported.
    pub fn has_fatal(&self) -> (b: bool)
        requires
            self.wf(),
        ensures
            b == exists|i: int| 0 <= i < self@.len() && is_fatal(self@[i].category),
    {
        self.fatal
    }

    /// Hand the accumulated diagnostics over, in order.
    pub fn into_diagnostics(self) -> (v: Vec<Diagnostic>)
        ensures
            v@.len() == self@.len(),
            forall|i: int| 0 <= i < v@.len() ==> v@[i]@ == self@[i],
    {
        self.diags
    }
}

} // verus!
