//! The lowering policy, stated mathematically.
//!
//! `lower_file` maps a source tree to the target tree the pass must
//! produce, and `file_diags` gives the diagnostics it must report, in
//! source pre-order.  Both are total functions of the source tree alone:
//! the executable pass in `engine` is proved to return exactly these.
//!
//! The policy, per node kind:
//! - reference types are rejected: one diagnostic, a `Never` placeholder
//!   for the whole rejected subtree (the subtree is still walked for
//!   further diagnostics);
//! - macros and higher-ranked binders in type position are unsupported:
//!   one diagnostic each, a `Never` in their place;
//! - function-pointer, trait-object and `impl` types are kept with
//!   reduced fidelity: a warning, an `Infer` in their place;
//! - reference-taking expressions become raw-pointer casts;
//! - string literals become null-terminated literals behind a pointer
//!   accessor; one holding a nul byte is rejected;
//! - every function is marked unsafe; unspecified visibility becomes
//!   public; struct and enum declarations get a `Clone`/`Copy` derive
//!   appended after their own attributes;
//! - a declaration that needs a body and has none is dropped with a fatal
//!   diagnostic, and its subtree is abandoned;
//! - item kinds with no policy are dropped, each with a diagnostic.

use vstd::prelude::*;

use crate::ast::{
    AttrV, SrcBlockV, SrcExprV, SrcFieldPatV, SrcFieldV, SrcFileV, SrcItemV, SrcLitV, SrcParamV,
    SrcPathV, SrcPatV, SrcSegV, SrcStmtV, SrcStructKindV, SrcTyV, SrcVariantV, SrcVisV,
};
use crate::diag::{Category, DiagV, Severity, Span};
use crate::target::{
    TgtBlockV, TgtExprV, TgtFieldPatV, TgtFieldV, TgtFileV, TgtItemV, TgtLetInitV, TgtLitV,
    TgtParamV, TgtPathV, TgtPatV, TgtStmtV, TgtStructKindV, TgtTyV, TgtVariantV, TgtVisV,
};

verus! {

// ---------------------------------------------------------------------------
// The diagnostics the policy can produce.
// ---------------------------------------------------------------------------

/// The rejection of a reference type.
pub open spec fn ref_type_diag(span: Span) -> DiagV {
    DiagV {
        severity: Severity::Error,
        category: Category::RestrictionViolation,
        title: "reference type used"@,
        span,
        label: "reference types are not allowed"@,
        help: Some("try using pointers"@),
    }
}

/// A construct the policy does not cover.
pub open spec fn unsupported_construct_diag(span: Span) -> DiagV {
    DiagV {
        severity: Severity::Error,
        category: Category::UnsupportedConstruct,
        title: "unsupported construct"@,
        span,
        label: "no lowering is defined for this construct"@,
        help: None,
    }
}

/// A pattern kind the policy does not cover.
pub open spec fn unsupported_pattern_diag(span: Span) -> DiagV {
    DiagV {
        severity: Severity::Error,
        category: Category::UnsupportedConstruct,
        title: "unsupported pattern"@,
        span,
        label: "no lowering is defined for this pattern"@,
        help: None,
    }
}

/// A type kind that is kept, but with reduced fidelity.
pub open spec fn partial_type_diag(span: Span) -> DiagV {
    DiagV {
        severity: Severity::Warning,
        category: Category::UnsupportedConstruct,
        title: "partially supported type"@,
        span,
        label: "this type is lowered with reduced fidelity"@,
        help: None,
    }
}

/// A declaration that needs a body and has none.
pub open spec fn missing_body_diag(span: Span) -> DiagV {
    DiagV {
        severity: Severity::Error,
        category: Category::StructuralError,
        title: "missing body"@,
        span,
        label: "a body is required here"@,
        help: None,
    }
}

/// A restricted visibility whose path cannot be resolved.
pub open spec fn bad_vis_path_diag(span: Span) -> DiagV {
    DiagV {
        severity: Severity::Error,
        category: Category::StructuralError,
        title: "unresolvable visibility path"@,
        span,
        label: "this visibility path is empty"@,
        help: None,
    }
}

/// A string literal that cannot become a null-terminated string.
pub open spec fn nul_in_string_diag(span: Span) -> DiagV {
    DiagV {
        severity: Severity::Error,
        category: Category::RestrictionViolation,
        title: "nul byte in string literal"@,
        span,
        label: "the dialect's strings are null-terminated"@,
        help: None,
    }
}

// ---------------------------------------------------------------------------
// Synthesized attributes.
// ---------------------------------------------------------------------------

/// The inner attribute every target unit starts with.
pub open spec fn no_std_attr() -> AttrV {
    AttrV { path: seq!["no_std"@], args: Seq::empty() }
}

/// The derive appended to every struct and enum declaration.
pub open spec fn derive_clone_copy_attr() -> AttrV {
    AttrV { path: seq!["derive"@], args: "Clone, Copy"@ }
}

// ---------------------------------------------------------------------------
// Paths, visibility, literals.
// ---------------------------------------------------------------------------

/// The identifier a path segment lowers to.
pub open spec fn lower_seg(s: SrcSegV) -> Seq<char> {
    match s {
        SrcSegV::Name(n) => n,
        SrcSegV::SelfType => "Self"@,
        SrcSegV::SelfValue => "self"@,
        SrcSegV::Super => "super"@,
        SrcSegV::Crate => "crate"@,
    }
}

pub open spec fn lower_path(p: SrcPathV) -> TgtPathV {
    TgtPathV { segments: Seq::new(p.segments.len(), |i: int| lower_seg(p.segments[i])) }
}

/// Whether a source visibility can be resolved.
pub open spec fn vis_ok(v: Option<SrcVisV>) -> bool {
    match v {
        Some(SrcVisV::PubIn { path, span }) => path.segments.len() > 0,
        _ => true,
    }
}

/// Unspecified visibility becomes public; the restricted forms collapse
/// to a restriction carrying the resolved path.  An unresolvable path
/// falls back to public, beside its fatal diagnostic.
pub open spec fn lower_vis(v: Option<SrcVisV>) -> TgtVisV {
    match v {
        None => TgtVisV::Public,
        Some(SrcVisV::Pub) => TgtVisV::Public,
        Some(SrcVisV::PubCrate) => TgtVisV::Restricted {
            path: TgtPathV { segments: seq!["crate"@] },
        },
        Some(SrcVisV::PubSuper) => TgtVisV::Restricted {
            path: TgtPathV { segments: seq!["super"@] },
        },
        Some(SrcVisV::PubSelf) => TgtVisV::Restricted {
            path: TgtPathV { segments: seq!["self"@] },
        },
        Some(SrcVisV::PubIn { path, span }) => {
            if path.segments.len() > 0 {
                TgtVisV::Restricted { path: lower_path(path) }
            } else {
                TgtVisV::Public
            }
        },
    }
}

pub open spec fn vis_diags(v: Option<SrcVisV>) -> Seq<DiagV> {
    match v {
        Some(SrcVisV::PubIn { path, span }) => {
            if path.segments.len() > 0 {
                Seq::empty()
            } else {
                seq![bad_vis_path_diag(span)]
            }
        },
        _ => Seq::empty(),
    }
}

/// The bytes a string literal contributes to the target text.
pub open spec fn str_bytes(s: Seq<char>) -> Seq<u8> {
    vstd::utf8::encode_utf8(s)
}

/// A literal kind other than a plain string maps one to one.  (A plain
/// string never reaches this function: the expression lowering rewrites
/// it first; the arm is given only to keep the function total.)
pub open spec fn lower_plain_lit(l: SrcLitV) -> TgtLitV {
    match l {
        SrcLitV::Str(s) => TgtLitV::CStr(str_bytes(s)),
        SrcLitV::ByteStr(b) => TgtLitV::ByteStr(b),
        SrcLitV::CStr(b) => TgtLitV::CStr(b),
        SrcLitV::Int(s) => TgtLitV::Int(s),
        SrcLitV::Float(s) => TgtLitV::Float(s),
        SrcLitV::Char(c) => TgtLitV::Char(c),
        SrcLitV::Byte(b) => TgtLitV::Byte(b),
        SrcLitV::Bool(b) => TgtLitV::Bool(b),
    }
}

// ---------------------------------------------------------------------------
// The tree transformation.
// ---------------------------------------------------------------------------

pub open spec fn lower_ty(t: SrcTyV) -> TgtTyV
    decreases t,
{
    match t {
        SrcTyV::Ptr { mutable, elem, span } => TgtTyV::Ptr {
            mutable,
            elem: Box::new(lower_ty(*elem)),
        },
        SrcTyV::Ref { mutable, elem, span } => TgtTyV::Never,
        SrcTyV::Array { elem, len, span } => TgtTyV::Array {
            elem: Box::new(lower_ty(*elem)),
            len: Box::new(lower_expr(*len)),
        },
        SrcTyV::Slice { elem, span } => TgtTyV::Slice { elem: Box::new(lower_ty(*elem)) },
        SrcTyV::Tuple { elems, span } => TgtTyV::Tuple {
            elems: lower_tys(elems, elems.len() as int),
        },
        SrcTyV::Path { path, span } => TgtTyV::Path { path: lower_path(path) },
        SrcTyV::Never { span } => TgtTyV::Never,
        SrcTyV::Infer { span } => TgtTyV::Infer,
        SrcTyV::Paren { inner, span } => lower_ty(*inner),
        SrcTyV::FnPtr { span } => TgtTyV::Infer,
        SrcTyV::TraitObject { span } => TgtTyV::Infer,
        SrcTyV::ImplTrait { span } => TgtTyV::Infer,
        SrcTyV::Macro { span } => TgtTyV::Never,
        SrcTyV::For { span } => TgtTyV::Never,
    }
}

/// Lowerings of the first `n` types of `ts`.
pub open spec fn lower_tys(ts: Seq<SrcTyV>, n: int) -> Seq<TgtTyV>
    decreases ts, n,
{
    if 0 < n <= ts.len() {
        lower_tys(ts, n - 1).push(lower_ty(ts[n - 1]))
    } else {
        Seq::empty()
    }
}

pub open spec fn ty_diags(t: SrcTyV) -> Seq<DiagV>
    decreases t,
{
    match t {
        SrcTyV::Ptr { mutable, elem, span } => ty_diags(*elem),
        SrcTyV::Ref { mutable, elem, span } => seq![ref_type_diag(span)] + ty_diags(*elem),
        SrcTyV::Array { elem, len, span } => ty_diags(*elem) + expr_diags(*len),
        SrcTyV::Slice { elem, span } => ty_diags(*elem),
        SrcTyV::Tuple { elems, span } => tys_diags(elems, elems.len() as int),
        SrcTyV::Path { path, span } => Seq::empty(),
        SrcTyV::Never { span } => Seq::empty(),
        SrcTyV::Infer { span } => Seq::empty(),
        SrcTyV::Paren { inner, span } => ty_diags(*inner),
        SrcTyV::FnPtr { span } => seq![partial_type_diag(span)],
        SrcTyV::TraitObject { span } => seq![partial_type_diag(span)],
        SrcTyV::ImplTrait { span } => seq![partial_type_diag(span)],
        SrcTyV::Macro { span } => seq![unsupported_construct_diag(span)],
        SrcTyV::For { span } => seq![unsupported_construct_diag(span)],
    }
}

/// Diagnostics of the first `n` types of `ts`, concatenated.
pub open spec fn tys_diags(ts: Seq<SrcTyV>, n: int) -> Seq<DiagV>
    decreases ts, n,
{
    if 0 < n <= ts.len() {
        tys_diags(ts, n - 1) + ty_diags(ts[n - 1])
    } else {
        Seq::empty()
    }
}

pub open spec fn lower_expr(e: SrcExprV) -> TgtExprV
    decreases e,
{
    match e {
        SrcExprV::Lit { lit: SrcLitV::Str(s), span } => {
            if str_bytes(s).contains(0u8) {
                TgtExprV::Underscore
            } else {
                TgtExprV::CStrPtr { bytes: str_bytes(s) }
            }
        },
        SrcExprV::Lit { lit, span } => TgtExprV::Lit { lit: lower_plain_lit(lit) },
        SrcExprV::Path { path, span } => TgtExprV::Path { path: lower_path(path) },
        SrcExprV::Ref { mutable, inner, span } => TgtExprV::AddrOfCast {
            mutable,
            inner: Box::new(lower_expr(*inner)),
        },
        SrcExprV::Unary { op, inner, span } => TgtExprV::Unary {
            op,
            inner: Box::new(lower_expr(*inner)),
        },
        SrcExprV::Binary { op, lhs, rhs, span } => TgtExprV::Binary {
            op,
            lhs: Box::new(lower_expr(*lhs)),
            rhs: Box::new(lower_expr(*rhs)),
        },
        SrcExprV::Call { callee, args, span } => TgtExprV::Call {
            callee: Box::new(lower_expr(*callee)),
            args: lower_exprs(args, args.len() as int),
        },
        SrcExprV::Paren { inner, span } => TgtExprV::Paren { inner: Box::new(lower_expr(*inner)) },
        SrcExprV::Block { block, span } => TgtExprV::Block { block: lower_block(block) },
        SrcExprV::Cast { inner, ty, span } => TgtExprV::Cast {
            inner: Box::new(lower_expr(*inner)),
            ty: Box::new(lower_ty(*ty)),
        },
        SrcExprV::Return { value, span } => TgtExprV::Return {
            value: match value {
                Some(v) => Some(Box::new(lower_expr(*v))),
                None => None,
            },
        },
        SrcExprV::Underscore { span } => TgtExprV::Underscore,
        SrcExprV::MacroCall { span } => TgtExprV::Underscore,
    }
}

/// Lowerings of the first `n` expressions of `es`.
pub open spec fn lower_exprs(es: Seq<SrcExprV>, n: int) -> Seq<TgtExprV>
    decreases es, n,
{
    if 0 < n <= es.len() {
        lower_exprs(es, n - 1).push(lower_expr(es[n - 1]))
    } else {
        Seq::empty()
    }
}

pub open spec fn expr_diags(e: SrcExprV) -> Seq<DiagV>
    decreases e,
{
    match e {
        SrcExprV::Lit { lit: SrcLitV::Str(s), span } => {
            if str_bytes(s).contains(0u8) {
                seq![nul_in_string_diag(span)]
            } else {
                Seq::empty()
            }
        },
        SrcExprV::Lit { lit, span } => Seq::empty(),
        SrcExprV::Path { path, span } => Seq::empty(),
        SrcExprV::Ref { mutable, inner, span } => expr_diags(*inner),
        SrcExprV::Unary { op, inner, span } => expr_diags(*inner),
        SrcExprV::Binary { op, lhs, rhs, span } => expr_diags(*lhs) + expr_diags(*rhs),
        SrcExprV::Call { callee, args, span } => expr_diags(*callee) + exprs_diags(
            args,
            args.len() as int,
        ),
        SrcExprV::Paren { inner, span } => expr_diags(*inner),
        SrcExprV::Block { block, span } => block_diags(block),
        SrcExprV::Cast { inner, ty, span } => expr_diags(*inner) + ty_diags(*ty),
        SrcExprV::Return { value, span } => match value {
            Some(v) => expr_diags(*v),
            None => Seq::empty(),
        },
        SrcExprV::Underscore { span } => Seq::empty(),
        SrcExprV::MacroCall { span } => seq![unsupported_construct_diag(span)],
    }
}

/// Diagnostics of the first `n` expressions of `es`, concatenated.
pub open spec fn exprs_diags(es: Seq<SrcExprV>, n: int) -> Seq<DiagV>
    decreases es, n,
{
    if 0 < n <= es.len() {
        exprs_diags(es, n - 1) + expr_diags(es[n - 1])
    } else {
        Seq::empty()
    }
}

pub open spec fn lower_block(b: SrcBlockV) -> TgtBlockV
    decreases b,
{
    TgtBlockV {
        stmts: match b.tail {
            Some(e) => lower_stmts(b.stmts, b.stmts.len() as int).push(
                TgtStmtV::Expr { expr: Box::new(lower_expr(*e)), semi: false },
            ),
            None => lower_stmts(b.stmts, b.stmts.len() as int),
        },
    }
}

pub open spec fn block_diags(b: SrcBlockV) -> Seq<DiagV>
    decreases b,
{
    stmts_diags(b.stmts, b.stmts.len() as int) + match b.tail {
        Some(e) => expr_diags(*e),
        None => Seq::empty(),
    }
}

/// A statement lowers to at most one target statement; a dropped item
/// statement yields none (its diagnostics are already out).
pub open spec fn lower_stmt(s: SrcStmtV) -> Option<TgtStmtV>
    decreases s,
{
    match s {
        SrcStmtV::Expr { expr, span } => Some(
            TgtStmtV::Expr { expr: Box::new(lower_expr(*expr)), semi: true },
        ),
        SrcStmtV::Let { pat, init, els, span } => Some(
            TgtStmtV::Let {
                pat: Box::new(lower_pat(*pat)),
                init: match init {
                    Some(e) => Some(
                        TgtLetInitV {
                            expr: Box::new(lower_expr(*e)),
                            diverge: match els {
                                Some(b) => Some(lower_block(b)),
                                None => None,
                            },
                        },
                    ),
                    None => None,
                },
            },
        ),
        SrcStmtV::Item { item } => match lower_item(*item) {
            Some(ti) => Some(TgtStmtV::Item { item: Box::new(ti) }),
            None => None,
        },
    }
}

/// Lowerings of the first `n` statements of `ss`, dropped ones left out.
pub open spec fn lower_stmts(ss: Seq<SrcStmtV>, n: int) -> Seq<TgtStmtV>
    decreases ss, n,
{
    if 0 < n <= ss.len() {
        match lower_stmt(ss[n - 1]) {
            Some(ts) => lower_stmts(ss, n - 1).push(ts),
            None => lower_stmts(ss, n - 1),
        }
    } else {
        Seq::empty()
    }
}

pub open spec fn stmt_diags(s: SrcStmtV) -> Seq<DiagV>
    decreases s,
{
    match s {
        SrcStmtV::Expr { expr, span } => expr_diags(*expr),
        SrcStmtV::Let { pat, init, els, span } => pat_diags(*pat) + (match init {
            Some(e) => expr_diags(*e) + (match els {
                Some(b) => block_diags(b),
                None => Seq::empty(),
            }),
            None => Seq::empty(),
        }),
        SrcStmtV::Item { item } => item_diags(*item),
    }
}

/// Diagnostics of the first `n` statements of `ss`, concatenated.
pub open spec fn stmts_diags(ss: Seq<SrcStmtV>, n: int) -> Seq<DiagV>
    decreases ss, n,
{
    if 0 < n <= ss.len() {
        stmts_diags(ss, n - 1) + stmt_diags(ss[n - 1])
    } else {
        Seq::empty()
    }
}

pub open spec fn lower_pat(p: SrcPatV) -> TgtPatV
    decreases p,
{
    match p {
        SrcPatV::Ident { by_ref, mutable, name, sub, span } => TgtPatV::Ident {
            by_ref,
            mutable,
            name,
            sub: match sub {
                Some(q) => Some(Box::new(lower_pat(*q))),
                None => None,
            },
        },
        SrcPatV::Wild { span } => TgtPatV::Wild,
        SrcPatV::Record { path, fields, has_rest, span } => TgtPatV::Record {
            path: lower_path(path),
            fields: lower_field_pats(fields, fields.len() as int),
            has_rest,
        },
        SrcPatV::TupleStruct { path, elems, span } => TgtPatV::TupleStruct {
            path: lower_path(path),
            elems: lower_pats(elems, elems.len() as int),
        },
        SrcPatV::Tuple { elems, span } => TgtPatV::Tuple {
            elems: lower_pats(elems, elems.len() as int),
        },
        SrcPatV::Or { alts, span } => TgtPatV::Or { alts: lower_pats(alts, alts.len() as int) },
        SrcPatV::Path { path, span } => TgtPatV::Path { path: lower_path(path) },
        SrcPatV::Range { lo, hi, span } => TgtPatV::Range {
            lo: match lo {
                Some(l) => Some(lower_plain_lit(l)),
                None => None,
            },
            hi: match hi {
                Some(l) => Some(lower_plain_lit(l)),
                None => None,
            },
        },
        SrcPatV::Slice { elems, span } => TgtPatV::Slice {
            elems: lower_pats(elems, elems.len() as int),
        },
        SrcPatV::Rest { span } => TgtPatV::Rest,
        SrcPatV::Paren { inner, span } => TgtPatV::Paren { inner: Box::new(lower_pat(*inner)) },
        SrcPatV::Lit { lit, span } => TgtPatV::Wild,
        SrcPatV::Boxed { span } => TgtPatV::Wild,
        SrcPatV::Ref { span } => TgtPatV::Wild,
        SrcPatV::Macro { span } => TgtPatV::Wild,
        SrcPatV::ConstBlock { span } => TgtPatV::Wild,
    }
}

/// Lowerings of the first `n` patterns of `ps`.
pub open spec fn lower_pats(ps: Seq<SrcPatV>, n: int) -> Seq<TgtPatV>
    decreases ps, n,
{
    if 0 < n <= ps.len() {
        lower_pats(ps, n - 1).push(lower_pat(ps[n - 1]))
    } else {
        Seq::empty()
    }
}

pub open spec fn pat_diags(p: SrcPatV) -> Seq<DiagV>
    decreases p,
{
    match p {
        SrcPatV::Ident { by_ref, mutable, name, sub, span } => match sub {
            Some(q) => pat_diags(*q),
            None => Seq::empty(),
        },
        SrcPatV::Wild { span } => Seq::empty(),
        SrcPatV::Record { path, fields, has_rest, span } => field_pats_diags(
            fields,
            fields.len() as int,
        ),
        SrcPatV::TupleStruct { path, elems, span } => pats_diags(elems, elems.len() as int),
        SrcPatV::Tuple { elems, span } => pats_diags(elems, elems.len() as int),
        SrcPatV::Or { alts, span } => pats_diags(alts, alts.len() as int),
        SrcPatV::Path { path, span } => Seq::empty(),
        SrcPatV::Range { lo, hi, span } => Seq::empty(),
        SrcPatV::Slice { elems, span } => pats_diags(elems, elems.len() as int),
        SrcPatV::Rest { span } => Seq::empty(),
        SrcPatV::Paren { inner, span } => pat_diags(*inner),
        SrcPatV::Lit { lit, span } => seq![unsupported_pattern_diag(span)],
        SrcPatV::Boxed { span } => seq![unsupported_pattern_diag(span)],
        SrcPatV::Ref { span } => seq![unsupported_pattern_diag(span)],
        SrcPatV::Macro { span } => seq![unsupported_pattern_diag(span)],
        SrcPatV::ConstBlock { span } => seq![unsupported_pattern_diag(span)],
    }
}

/// Diagnostics of the first `n` patterns of `ps`, concatenated.
pub open spec fn pats_diags(ps: Seq<SrcPatV>, n: int) -> Seq<DiagV>
    decreases ps, n,
{
    if 0 < n <= ps.len() {
        pats_diags(ps, n - 1) + pat_diags(ps[n - 1])
    } else {
        Seq::empty()
    }
}

pub open spec fn lower_field_pat(f: SrcFieldPatV) -> TgtFieldPatV
    decreases f,
{
    TgtFieldPatV { name: f.name, pat: lower_pat(f.pat) }
}

/// Lowerings of the first `n` field patterns of `fs`.
pub open spec fn lower_field_pats(fs: Seq<SrcFieldPatV>, n: int) -> Seq<TgtFieldPatV>
    decreases fs, n,
{
    if 0 < n <= fs.len() {
        lower_field_pats(fs, n - 1).push(lower_field_pat(fs[n - 1]))
    } else {
        Seq::empty()
    }
}

/// Diagnostics of the first `n` field patterns of `fs`, concatenated.
pub open spec fn field_pats_diags(fs: Seq<SrcFieldPatV>, n: int) -> Seq<DiagV>
    decreases fs, n,
{
    if 0 < n <= fs.len() {
        field_pats_diags(fs, n - 1) + pat_diags(fs[n - 1].pat)
    } else {
        Seq::empty()
    }
}

pub open spec fn lower_param(p: SrcParamV) -> TgtParamV
    decreases p,
{
    TgtParamV { pat: lower_pat(p.pat), ty: lower_ty(p.ty) }
}

/// Lowerings of the first `n` parameters of `ps`.
pub open spec fn lower_params(ps: Seq<SrcParamV>, n: int) -> Seq<TgtParamV>
    decreases ps, n,
{
    if 0 < n <= ps.len() {
        lower_params(ps, n - 1).push(lower_param(ps[n - 1]))
    } else {
        Seq::empty()
    }
}

pub open spec fn param_diags(p: SrcParamV) -> Seq<DiagV>
    decreases p,
{
    pat_diags(p.pat) + ty_diags(p.ty)
}

/// Diagnostics of the first `n` parameters of `ps`, concatenated.
pub open spec fn params_diags(ps: Seq<SrcParamV>, n: int) -> Seq<DiagV>
    decreases ps, n,
{
    if 0 < n <= ps.len() {
        params_diags(ps, n - 1) + param_diags(ps[n - 1])
    } else {
        Seq::empty()
    }
}

/// A field's own visibility defaults to public independently of its item.
pub open spec fn lower_field(f: SrcFieldV) -> TgtFieldV
    decreases f,
{
    TgtFieldV { name: f.name, vis: lower_vis(f.vis), ty: lower_ty(f.ty) }
}

/// Lowerings of the first `n` fields of `fs`.
pub open spec fn lower_fields(fs: Seq<SrcFieldV>, n: int) -> Seq<TgtFieldV>
    decreases fs, n,
{
    if 0 < n <= fs.len() {
        lower_fields(fs, n - 1).push(lower_field(fs[n - 1]))
    } else {
        Seq::empty()
    }
}

pub open spec fn field_diags(f: SrcFieldV) -> Seq<DiagV>
    decreases f,
{
    vis_diags(f.vis) + ty_diags(f.ty)
}

/// Diagnostics of the first `n` fields of `fs`, concatenated.
pub open spec fn fields_diags(fs: Seq<SrcFieldV>, n: int) -> Seq<DiagV>
    decreases fs, n,
{
    if 0 < n <= fs.len() {
        fields_diags(fs, n - 1) + field_diags(fs[n - 1])
    } else {
        Seq::empty()
    }
}

pub open spec fn lower_struct_kind(k: SrcStructKindV) -> TgtStructKindV
    decreases k,
{
    match k {
        SrcStructKindV::Record(fs) => TgtStructKindV::Record(lower_fields(fs, fs.len() as int)),
        SrcStructKindV::Tuple(fs) => TgtStructKindV::Tuple(lower_fields(fs, fs.len() as int)),
        SrcStructKindV::Unit => TgtStructKindV::Unit,
    }
}

pub open spec fn struct_kind_diags(k: SrcStructKindV) -> Seq<DiagV>
    decreases k,
{
    match k {
        SrcStructKindV::Record(fs) => fields_diags(fs, fs.len() as int),
        SrcStructKindV::Tuple(fs) => fields_diags(fs, fs.len() as int),
        SrcStructKindV::Unit => Seq::empty(),
    }
}

pub open spec fn lower_variant(v: SrcVariantV) -> TgtVariantV
    decreases v,
{
    TgtVariantV { name: v.name, kind: lower_struct_kind(v.kind) }
}

/// Lowerings of the first `n` variants of `vs`.
pub open spec fn lower_variants(vs: Seq<SrcVariantV>, n: int) -> Seq<TgtVariantV>
    decreases vs, n,
{
    if 0 < n <= vs.len() {
        lower_variants(vs, n - 1).push(lower_variant(vs[n - 1]))
    } else {
        Seq::empty()
    }
}

/// Diagnostics of the first `n` variants of `vs`, concatenated.
pub open spec fn variants_diags(vs: Seq<SrcVariantV>, n: int) -> Seq<DiagV>
    decreases vs, n,
{
    if 0 < n <= vs.len() {
        variants_diags(vs, n - 1) + struct_kind_diags(vs[n - 1].kind)
    } else {
        Seq::empty()
    }
}

/// An item lowers to at most one target declaration.  `None` always
/// comes with at least one diagnostic.
pub open spec fn lower_item(i: SrcItemV) -> Option<TgtItemV>
    decreases i,
{
    match i {
        SrcItemV::Fn { name, vis, is_const, is_async, abi, params, variadic, ret, body, span } => {
            match body {
                None => None,
                Some(b) => Some(
                    TgtItemV::Fn {
                        name,
                        vis: lower_vis(vis),
                        unsafety: true,
                        is_const,
                        is_async,
                        abi,
                        params: lower_params(params, params.len() as int),
                        variadic,
                        ret: match ret {
                            Some(t) => Some(Box::new(lower_ty(*t))),
                            None => None,
                        },
                        body: lower_block(b),
                    },
                ),
            }
        },
        SrcItemV::Struct { name, vis, attrs, kind, span } => Some(
            TgtItemV::Struct {
                name,
                vis: lower_vis(vis),
                attrs: attrs.push(derive_clone_copy_attr()),
                kind: lower_struct_kind(kind),
            },
        ),
        SrcItemV::Enum { name, vis, attrs, variants, span } => Some(
            TgtItemV::Enum {
                name,
                vis: lower_vis(vis),
                attrs: attrs.push(derive_clone_copy_attr()),
                variants: lower_variants(variants, variants.len() as int),
            },
        ),
        SrcItemV::Const { name, vis, ty, body, span } => match body {
            None => None,
            Some(e) => Some(
                TgtItemV::Const {
                    name,
                    vis: lower_vis(vis),
                    ty: Box::new(lower_ty(*ty)),
                    expr: Box::new(lower_expr(*e)),
                },
            ),
        },
        SrcItemV::Static { name, vis, mutable, ty, body, span } => match body {
            None => None,
            Some(e) => Some(
                TgtItemV::Static {
                    name,
                    vis: lower_vis(vis),
                    mutable,
                    ty: Box::new(lower_ty(*ty)),
                    expr: Box::new(lower_expr(*e)),
                },
            ),
        },
        SrcItemV::Trait { span } => None,
        SrcItemV::Impl { span } => None,
        SrcItemV::Module { span } => None,
        SrcItemV::TypeAlias { span } => None,
        SrcItemV::MacroDef { span } => None,
        SrcItemV::Use { span } => None,
        SrcItemV::Union { span } => None,
    }
}

/// Lowerings of the first `n` items of `items`, dropped ones left out.
pub open spec fn lower_items(items: Seq<SrcItemV>, n: int) -> Seq<TgtItemV>
    decreases items, n,
{
    if 0 < n <= items.len() {
        match lower_item(items[n - 1]) {
            Some(ti) => lower_items(items, n - 1).push(ti),
            None => lower_items(items, n - 1),
        }
    } else {
        Seq::empty()
    }
}

pub open spec fn item_diags(i: SrcItemV) -> Seq<DiagV>
    decreases i,
{
    match i {
        SrcItemV::Fn { name, vis, is_const, is_async, abi, params, variadic, ret, body, span } => {
            match body {
                None => seq![missing_body_diag(span)],
                Some(b) => vis_diags(vis) + params_diags(params, params.len() as int) + (match ret {
                    Some(t) => ty_diags(*t),
                    None => Seq::empty(),
                }) + block_diags(b),
            }
        },
        SrcItemV::Struct { name, vis, attrs, kind, span } => vis_diags(vis) + struct_kind_diags(
            kind,
        ),
        SrcItemV::Enum { name, vis, attrs, variants, span } => vis_diags(vis) + variants_diags(
            variants,
            variants.len() as int,
        ),
        SrcItemV::Const { name, vis, ty, body, span } => match body {
            None => seq![missing_body_diag(span)],
            Some(e) => vis_diags(vis) + ty_diags(*ty) + expr_diags(*e),
        },
        SrcItemV::Static { name, vis, mutable, ty, body, span } => match body {
            None => seq![missing_body_diag(span)],
            Some(e) => vis_diags(vis) + ty_diags(*ty) + expr_diags(*e),
        },
        SrcItemV::Trait { span } => seq![unsupported_construct_diag(span)],
        SrcItemV::Impl { span } => seq![unsupported_construct_diag(span)],
        SrcItemV::Module { span } => seq![unsupported_construct_diag(span)],
        SrcItemV::TypeAlias { span } => seq![unsupported_construct_diag(span)],
        SrcItemV::MacroDef { span } => seq![unsupported_construct_diag(span)],
        SrcItemV::Use { span } => seq![unsupported_construct_diag(span)],
        SrcItemV::Union { span } => seq![unsupported_construct_diag(span)],
    }
}

/// Diagnostics of the first `n` items of `items`, concatenated.
pub open spec fn items_diags(items: Seq<SrcItemV>, n: int) -> Seq<DiagV>
    decreases items, n,
{
    if 0 < n <= items.len() {
        items_diags(items, n - 1) + item_diags(items[n - 1])
    } else {
        Seq::empty()
    }
}

/// The whole pass on one compilation unit: the target tree it produces.
pub open spec fn lower_file(f: SrcFileV) -> TgtFileV {
    TgtFileV {
        attrs: seq![no_std_attr()],
        items: lower_items(f.items, f.items.len() as int),
    }
}

/// The whole pass on one compilation unit: the diagnostics it reports.
pub open spec fn file_diags(f: SrcFileV) -> Seq<DiagV> {
    items_diags(f.items, f.items.len() as int)
}

} // verus!
