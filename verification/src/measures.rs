//! Counting measures over source and target trees.
//!
//! These spec functions state, for the laws in `laws`:
//! - how many "reference type used" diagnostics a diagnostic sequence
//!   holds;
//! - how many reference types the pass visits in a source tree (the
//!   subtree of a dropped bodiless declaration is not walked, and a
//!   reference nested inside a rejected subtree is visited for its
//!   diagnostic but leaves no node of its own);
//! - how many placeholder sources a source tree holds: the maximal
//!   rejected subtrees (reference types, macro and higher-ranked types)
//!   and the source never types, each of which leaves exactly one
//!   `Never` in the target;
//! - how many `Never` nodes a target tree holds;
//! - whether every function in a target tree carries the unsafety marker.

use vstd::prelude::*;

use crate::ast::{
    SrcBlockV, SrcExprV, SrcFieldV, SrcFileV, SrcItemV, SrcParamV, SrcStmtV, SrcStructKindV,
    SrcTyV, SrcVariantV,
};
use crate::diag::DiagV;
use crate::target::{
    TgtBlockV, TgtExprV, TgtFieldV, TgtFileV, TgtItemV, TgtParamV, TgtStmtV, TgtStructKindV,
    TgtTyV, TgtVariantV,
};

verus! {

// ---------------------------------------------------------------------------
// Reference diagnostics in a diagnostic sequence.
// ---------------------------------------------------------------------------

/// Whether a diagnostic is the rejection of a reference type.
pub open spec fn is_ref_diag(d: DiagV) -> bool {
    d.title == "reference type used"@
}

/// How many reference-type diagnostics a sequence holds.
pub open spec fn ref_diag_count(s: Seq<DiagV>) -> nat
    decreases s.len(),
{
    if s.len() == 0 {
        0
    } else {
        ref_diag_count(s.drop_last()) + (if is_ref_diag(s.last()) {
            1nat
        } else {
            0nat
        })
    }
}

/// The count distributes over concatenation.
pub proof fn lemma_ref_diag_count_add(a: Seq<DiagV>, b: Seq<DiagV>)
    ensures
        ref_diag_count(a + b) == ref_diag_count(a) + ref_diag_count(b),
    decreases b.len(),
{
    if b.len() == 0 {
        assert(a + b =~= a);
    } else {
        lemma_ref_diag_count_add(a, b.drop_last());
        assert((a + b).drop_last() =~= a + b.drop_last());
    }
}

// ---------------------------------------------------------------------------
// Reference types the pass visits, in the source tree.
// ---------------------------------------------------------------------------

pub open spec fn ref_ty_count_ty(t: SrcTyV) -> nat
    decreases t,
{
    match t {
        SrcTyV::Ptr { elem, .. } => ref_ty_count_ty(*elem),
        SrcTyV::Ref { elem, .. } => 1 + ref_ty_count_ty(*elem),
        SrcTyV::Array { elem, len, .. } => ref_ty_count_ty(*elem) + ref_ty_count_expr(*len),
        SrcTyV::Slice { elem, .. } => ref_ty_count_ty(*elem),
        SrcTyV::Tuple { elems, .. } => ref_ty_count_tys(elems, elems.len() as int),
        SrcTyV::Paren { inner, .. } => ref_ty_count_ty(*inner),
        _ => 0,
    }
}

pub open spec fn ref_ty_count_tys(ts: Seq<SrcTyV>, n: int) -> nat
    decreases ts, n,
{
    if 0 < n <= ts.len() {
        ref_ty_count_tys(ts, n - 1) + ref_ty_count_ty(ts[n - 1])
    } else {
        0
    }
}

pub open spec fn ref_ty_count_expr(e: SrcExprV) -> nat
    decreases e,
{
    match e {
        SrcExprV::Ref { inner, .. } => ref_ty_count_expr(*inner),
        SrcExprV::Unary { inner, .. } => ref_ty_count_expr(*inner),
        SrcExprV::Binary { lhs, rhs, .. } => ref_ty_count_expr(*lhs) + ref_ty_count_expr(*rhs),
        SrcExprV::Call { callee, args, .. } => ref_ty_count_expr(*callee) + ref_ty_count_exprs(
            args,
            args.len() as int,
        ),
        SrcExprV::Paren { inner, .. } => ref_ty_count_expr(*inner),
        SrcExprV::Block { block, .. } => ref_ty_count_block(block),
        SrcExprV::Cast { inner, ty, .. } => ref_ty_count_expr(*inner) + ref_ty_count_ty(*ty),
        SrcExprV::Return { value, .. } => match value {
            Some(v) => ref_ty_count_expr(*v),
            None => 0,
        },
        _ => 0,
    }
}

pub open spec fn ref_ty_count_exprs(es: Seq<SrcExprV>, n: int) -> nat
    decreases es, n,
{
    if 0 < n <= es.len() {
        ref_ty_count_exprs(es, n - 1) + ref_ty_count_expr(es[n - 1])
    } else {
        0
    }
}

pub open spec fn ref_ty_count_block(b: SrcBlockV) -> nat
    decreases b,
{
    ref_ty_count_stmts(b.stmts, b.stmts.len() as int) + (match b.tail {
        Some(e) => ref_ty_count_expr(*e),
        None => 0,
    })
}

pub open spec fn ref_ty_count_stmt(s: SrcStmtV) -> nat
    decreases s,
{
    match s {
        SrcStmtV::Expr { expr, .. } => ref_ty_count_expr(*expr),
        SrcStmtV::Let { pat, init, els, .. } => match init {
            Some(e) => ref_ty_count_expr(*e) + (match els {
                Some(b) => ref_ty_count_block(b),
                None => 0,
            }),
            None => 0,
        },
        SrcStmtV::Item { item } => ref_ty_count_item(*item),
    }
}

pub open spec fn ref_ty_count_stmts(ss: Seq<SrcStmtV>, n: int) -> nat
    decreases ss, n,
{
    if 0 < n <= ss.len() {
        ref_ty_count_stmts(ss, n - 1) + ref_ty_count_stmt(ss[n - 1])
    } else {
        0
    }
}

pub open spec fn ref_ty_count_params(ps: Seq<SrcParamV>, n: int) -> nat
    decreases ps, n,
{
    if 0 < n <= ps.len() {
        ref_ty_count_params(ps, n - 1) + ref_ty_count_ty(ps[n - 1].ty)
    } else {
        0
    }
}

pub open spec fn ref_ty_count_fields(fs: Seq<SrcFieldV>, n: int) -> nat
    decreases fs, n,
{
    if 0 < n <= fs.len() {
        ref_ty_count_fields(fs, n - 1) + ref_ty_count_ty(fs[n - 1].ty)
    } else {
        0
    }
}

pub open spec fn ref_ty_count_kind(k: SrcStructKindV) -> nat
    decreases k,
{
    match k {
        SrcStructKindV::Record(fs) => ref_ty_count_fields(fs, fs.len() as int),
        SrcStructKindV::Tuple(fs) => ref_ty_count_fields(fs, fs.len() as int),
        SrcStructKindV::Unit => 0,
    }
}

pub open spec fn ref_ty_count_variants(vs: Seq<SrcVariantV>, n: int) -> nat
    decreases vs, n,
{
    if 0 < n <= vs.len() {
        ref_ty_count_variants(vs, n - 1) + ref_ty_count_kind(vs[n - 1].kind)
    } else {
        0
    }
}

pub open spec fn ref_ty_count_item(i: SrcItemV) -> nat
    decreases i,
{
    match i {
        SrcItemV::Fn { params, ret, body, .. } => match body {
            None => 0,
            Some(b) => ref_ty_count_params(params, params.len() as int) + (match ret {
                Some(t) => ref_ty_count_ty(*t),
                None => 0,
            }) + ref_ty_count_block(b),
        },
        SrcItemV::Struct { kind, .. } => ref_ty_count_kind(kind),
        SrcItemV::Enum { variants, .. } => ref_ty_count_variants(variants, variants.len() as int),
        SrcItemV::Const { ty, body, .. } => match body {
            None => 0,
            Some(e) => ref_ty_count_ty(*ty) + ref_ty_count_expr(*e),
        },
        SrcItemV::Static { ty, body, .. } => match body {
            None => 0,
            Some(e) => ref_ty_count_ty(*ty) + ref_ty_count_expr(*e),
        },
        _ => 0,
    }
}

pub open spec fn ref_ty_count_items(items: Seq<SrcItemV>, n: int) -> nat
    decreases items, n,
{
    if 0 < n <= items.len() {
        ref_ty_count_items(items, n - 1) + ref_ty_count_item(items[n - 1])
    } else {
        0
    }
}

/// The reference types the pass visits in one compilation unit.
pub open spec fn ref_ty_count_file(f: SrcFileV) -> nat {
    ref_ty_count_items(f.items, f.items.len() as int)
}

// ---------------------------------------------------------------------------
// Placeholder sources in the source tree: every node that leaves exactly
// one `Never` in the target.  A rejected subtree counts once, whatever
// it holds.
// ---------------------------------------------------------------------------

pub open spec fn never_source_count_ty(t: SrcTyV) -> nat
    decreases t,
{
    match t {
        SrcTyV::Ptr { elem, .. } => never_source_count_ty(*elem),
        SrcTyV::Ref { .. } => 1,
        SrcTyV::Array { elem, len, .. } => never_source_count_ty(*elem) + never_source_count_expr(
            *len,
        ),
        SrcTyV::Slice { elem, .. } => never_source_count_ty(*elem),
        SrcTyV::Tuple { elems, .. } => never_source_count_tys(elems, elems.len() as int),
        SrcTyV::Never { .. } => 1,
        SrcTyV::Paren { inner, .. } => never_source_count_ty(*inner),
        SrcTyV::Macro { .. } => 1,
        SrcTyV::For { .. } => 1,
        _ => 0,
    }
}

pub open spec fn never_source_count_tys(ts: Seq<SrcTyV>, n: int) -> nat
    decreases ts, n,
{
    if 0 < n <= ts.len() {
        never_source_count_tys(ts, n - 1) + never_source_count_ty(ts[n - 1])
    } else {
        0
    }
}

pub open spec fn never_source_count_expr(e: SrcExprV) -> nat
    decreases e,
{
    match e {
        SrcExprV::Ref { inner, .. } => never_source_count_expr(*inner),
        SrcExprV::Unary { inner, .. } => never_source_count_expr(*inner),
        SrcExprV::Binary { lhs, rhs, .. } => never_source_count_expr(*lhs)
            + never_source_count_expr(*rhs),
        SrcExprV::Call { callee, args, .. } => never_source_count_expr(*callee)
            + never_source_count_exprs(args, args.len() as int),
        SrcExprV::Paren { inner, .. } => never_source_count_expr(*inner),
        SrcExprV::Block { block, .. } => never_source_count_block(block),
        SrcExprV::Cast { inner, ty, .. } => never_source_count_expr(*inner)
            + never_source_count_ty(*ty),
        SrcExprV::Return { value, .. } => match value {
            Some(v) => never_source_count_expr(*v),
            None => 0,
        },
        _ => 0,
    }
}

pub open spec fn never_source_count_exprs(es: Seq<SrcExprV>, n: int) -> nat
    decreases es, n,
{
    if 0 < n <= es.len() {
        never_source_count_exprs(es, n - 1) + never_source_count_expr(es[n - 1])
    } else {
        0
    }
}

pub open spec fn never_source_count_block(b: SrcBlockV) -> nat
    decreases b,
{
    never_source_count_stmts(b.stmts, b.stmts.len() as int) + (match b.tail {
        Some(e) => never_source_count_expr(*e),
        None => 0,
    })
}

pub open spec fn never_source_count_stmt(s: SrcStmtV) -> nat
    decreases s,
{
    match s {
        SrcStmtV::Expr { expr, .. } => never_source_count_expr(*expr),
        SrcStmtV::Let { pat, init, els, .. } => match init {
            Some(e) => never_source_count_expr(*e) + (match els {
                Some(b) => never_source_count_block(b),
                None => 0,
            }),
            None => 0,
        },
        SrcStmtV::Item { item } => never_source_count_item(*item),
    }
}

pub open spec fn never_source_count_stmts(ss: Seq<SrcStmtV>, n: int) -> nat
    decreases ss, n,
{
    if 0 < n <= ss.len() {
        never_source_count_stmts(ss, n - 1) + never_source_count_stmt(ss[n - 1])
    } else {
        0
    }
}

pub open spec fn never_source_count_params(ps: Seq<SrcParamV>, n: int) -> nat
    decreases ps, n,
{
    if 0 < n <= ps.len() {
        never_source_count_params(ps, n - 1) + never_source_count_ty(ps[n - 1].ty)
    } else {
        0
    }
}

pub open spec fn never_source_count_fields(fs: Seq<SrcFieldV>, n: int) -> nat
    decreases fs, n,
{
    if 0 < n <= fs.len() {
        never_source_count_fields(fs, n - 1) + never_source_count_ty(fs[n - 1].ty)
    } else {
        0
    }
}

pub open spec fn never_source_count_kind(k: SrcStructKindV) -> nat
    decreases k,
{
    match k {
        SrcStructKindV::Record(fs) => never_source_count_fields(fs, fs.len() as int),
        SrcStructKindV::Tuple(fs) => never_source_count_fields(fs, fs.len() as int),
        SrcStructKindV::Unit => 0,
    }
}

pub open spec fn never_source_count_variants(vs: Seq<SrcVariantV>, n: int) -> nat
    decreases vs, n,
{
    if 0 < n <= vs.len() {
        never_source_count_variants(vs, n - 1) + never_source_count_kind(vs[n - 1].kind)
    } else {
        0
    }
}

pub open spec fn never_source_count_item(i: SrcItemV) -> nat
    decreases i,
{
    match i {
        SrcItemV::Fn { params, ret, body, .. } => match body {
            None => 0,
            Some(b) => never_source_count_params(params, params.len() as int) + (match ret {
                Some(t) => never_source_count_ty(*t),
                None => 0,
            }) + never_source_count_block(b),
        },
        SrcItemV::Struct { kind, .. } => never_source_count_kind(kind),
        SrcItemV::Enum { variants, .. } => never_source_count_variants(
            variants,
            variants.len() as int,
        ),
        SrcItemV::Const { ty, body, .. } => match body {
            None => 0,
            Some(e) => never_source_count_ty(*ty) + never_source_count_expr(*e),
        },
        SrcItemV::Static { ty, body, .. } => match body {
            None => 0,
            Some(e) => never_source_count_ty(*ty) + never_source_count_expr(*e),
        },
        _ => 0,
    }
}

pub open spec fn never_source_count_items(items: Seq<SrcItemV>, n: int) -> nat
    decreases items, n,
{
    if 0 < n <= items.len() {
        never_source_count_items(items, n - 1) + never_source_count_item(items[n - 1])
    } else {
        0
    }
}

/// The placeholder sources of one compilation unit.
pub open spec fn never_source_count_file(f: SrcFileV) -> nat {
    never_source_count_items(f.items, f.items.len() as int)
}

// ---------------------------------------------------------------------------
// `Never` nodes in the target tree.
// ---------------------------------------------------------------------------

pub open spec fn tgt_never_count_ty(t: TgtTyV) -> nat
    decreases t,
{
    match t {
        TgtTyV::Ptr { elem, .. } => tgt_never_count_ty(*elem),
        TgtTyV::Array { elem, len } => tgt_never_count_ty(*elem) + tgt_never_count_expr(*len),
        TgtTyV::Slice { elem } => tgt_never_count_ty(*elem),
        TgtTyV::Tuple { elems } => tgt_never_count_tys(elems, elems.len() as int),
        TgtTyV::Path { .. } => 0,
        TgtTyV::Never => 1,
        TgtTyV::Infer => 0,
    }
}

pub open spec fn tgt_never_count_tys(ts: Seq<TgtTyV>, n: int) -> nat
    decreases ts, n,
{
    if 0 < n <= ts.len() {
        tgt_never_count_tys(ts, n - 1) + tgt_never_count_ty(ts[n - 1])
    } else {
        0
    }
}

pub open spec fn tgt_never_count_expr(e: TgtExprV) -> nat
    decreases e,
{
    match e {
        TgtExprV::AddrOfCast { inner, .. } => tgt_never_count_expr(*inner),
        TgtExprV::Unary { inner, .. } => tgt_never_count_expr(*inner),
        TgtExprV::Binary { lhs, rhs, .. } => tgt_never_count_expr(*lhs) + tgt_never_count_expr(
            *rhs,
        ),
        TgtExprV::Call { callee, args } => tgt_never_count_expr(*callee) + tgt_never_count_exprs(
            args,
            args.len() as int,
        ),
        TgtExprV::Paren { inner } => tgt_never_count_expr(*inner),
        TgtExprV::Block { block } => tgt_never_count_block(block),
        TgtExprV::Cast { inner, ty } => tgt_never_count_expr(*inner) + tgt_never_count_ty(*ty),
        TgtExprV::Return { value } => match value {
            Some(v) => tgt_never_count_expr(*v),
            None => 0,
        },
        _ => 0,
    }
}

pub open spec fn tgt_never_count_exprs(es: Seq<TgtExprV>, n: int) -> nat
    decreases es, n,
{
    if 0 < n <= es.len() {
        tgt_never_count_exprs(es, n - 1) + tgt_never_count_expr(es[n - 1])
    } else {
        0
    }
}

pub open spec fn tgt_never_count_block(b: TgtBlockV) -> nat
    decreases b,
{
    tgt_never_count_stmts(b.stmts, b.stmts.len() as int)
}

pub open spec fn tgt_never_count_stmt(s: TgtStmtV) -> nat
    decreases s,
{
    match s {
        TgtStmtV::Expr { expr, .. } => tgt_never_count_expr(*expr),
        TgtStmtV::Let { pat, init } => match init {
            Some(i) => tgt_never_count_expr(*i.expr) + (match i.diverge {
                Some(b) => tgt_never_count_block(b),
                None => 0,
            }),
            None => 0,
        },
        TgtStmtV::Item { item } => tgt_never_count_item(*item),
    }
}

pub open spec fn tgt_never_count_stmts(ss: Seq<TgtStmtV>, n: int) -> nat
    decreases ss, n,
{
    if 0 < n <= ss.len() {
        tgt_never_count_stmts(ss, n - 1) + tgt_never_count_stmt(ss[n - 1])
    } else {
        0
    }
}

pub open spec fn tgt_never_count_params(ps: Seq<TgtParamV>, n: int) -> nat
    decreases ps, n,
{
    if 0 < n <= ps.len() {
        tgt_never_count_params(ps, n - 1) + tgt_never_count_ty(ps[n - 1].ty)
    } else {
        0
    }
}

pub open spec fn tgt_never_count_fields(fs: Seq<TgtFieldV>, n: int) -> nat
    decreases fs, n,
{
    if 0 < n <= fs.len() {
        tgt_never_count_fields(fs, n - 1) + tgt_never_count_ty(fs[n - 1].ty)
    } else {
        0
    }
}

pub open spec fn tgt_never_count_kind(k: TgtStructKindV) -> nat
    decreases k,
{
    match k {
        TgtStructKindV::Record(fs) => tgt_never_count_fields(fs, fs.len() as int),
        TgtStructKindV::Tuple(fs) => tgt_never_count_fields(fs, fs.len() as int),
        TgtStructKindV::Unit => 0,
    }
}

pub open spec fn tgt_never_count_variants(vs: Seq<TgtVariantV>, n: int) -> nat
    decreases vs, n,
{
    if 0 < n <= vs.len() {
        tgt_never_count_variants(vs, n - 1) + tgt_never_count_kind(vs[n - 1].kind)
    } else {
        0
    }
}

pub open spec fn tgt_never_count_item(i: TgtItemV) -> nat
    decreases i,
{
    match i {
        TgtItemV::Fn { params, ret, body, .. } => tgt_never_count_params(
            params,
            params.len() as int,
        ) + (match ret {
            Some(t) => tgt_never_count_ty(*t),
            None => 0,
        }) + tgt_never_count_block(body),
        TgtItemV::Struct { kind, .. } => tgt_never_count_kind(kind),
        TgtItemV::Enum { variants, .. } => tgt_never_count_variants(
            variants,
            variants.len() as int,
        ),
        TgtItemV::Const { ty, expr, .. } => tgt_never_count_ty(*ty) + tgt_never_count_expr(*expr),
        TgtItemV::Static { ty, expr, .. } => tgt_never_count_ty(*ty) + tgt_never_count_expr(*expr),
    }
}

pub open spec fn tgt_never_count_items(items: Seq<TgtItemV>, n: int) -> nat
    decreases items, n,
{
    if 0 < n <= items.len() {
        tgt_never_count_items(items, n - 1) + tgt_never_count_item(items[n - 1])
    } else {
        0
    }
}

/// The `Never` nodes of one target unit.
pub open spec fn tgt_never_count_file(f: TgtFileV) -> nat {
    tgt_never_count_items(f.items, f.items.len() as int)
}

// ---------------------------------------------------------------------------
// The unsafety marker, everywhere in the target tree.
// ---------------------------------------------------------------------------

pub open spec fn fns_marked_ty(t: TgtTyV) -> bool
    decreases t,
{
    match t {
        TgtTyV::Ptr { elem, .. } => fns_marked_ty(*elem),
        TgtTyV::Array { elem, len } => fns_marked_ty(*elem) && fns_marked_expr(*len),
        TgtTyV::Slice { elem } => fns_marked_ty(*elem),
        TgtTyV::Tuple { elems } => fns_marked_tys(elems, elems.len() as int),
        _ => true,
    }
}

pub open spec fn fns_marked_tys(ts: Seq<TgtTyV>, n: int) -> bool
    decreases ts, n,
{
    if 0 < n <= ts.len() {
        fns_marked_tys(ts, n - 1) && fns_marked_ty(ts[n - 1])
    } else {
        true
    }
}

pub open spec fn fns_marked_expr(e: TgtExprV) -> bool
    decreases e,
{
    match e {
        TgtExprV::AddrOfCast { inner, .. } => fns_marked_expr(*inner),
        TgtExprV::Unary { inner, .. } => fns_marked_expr(*inner),
        TgtExprV::Binary { lhs, rhs, .. } => fns_marked_expr(*lhs) && fns_marked_expr(*rhs),
        TgtExprV::Call { callee, args } => fns_marked_expr(*callee) && fns_marked_exprs(
            args,
            args.len() as int,
        ),
        TgtExprV::Paren { inner } => fns_marked_expr(*inner),
        TgtExprV::Block { block } => fns_marked_block(block),
        TgtExprV::Cast { inner, ty } => fns_marked_expr(*inner) && fns_marked_ty(*ty),
        TgtExprV::Return { value } => match value {
            Some(v) => fns_marked_expr(*v),
            None => true,
        },
        _ => true,
    }
}

pub open spec fn fns_marked_exprs(es: Seq<TgtExprV>, n: int) -> bool
    decreases es, n,
{
    if 0 < n <= es.len() {
        fns_marked_exprs(es, n - 1) && fns_marked_expr(es[n - 1])
    } else {
        true
    }
}

pub open spec fn fns_marked_block(b: TgtBlockV) -> bool
    decreases b,
{
    fns_marked_stmts(b.stmts, b.stmts.len() as int)
}

pub open spec fn fns_marked_stmt(s: TgtStmtV) -> bool
    decreases s,
{
    match s {
        TgtStmtV::Expr { expr, .. } => fns_marked_expr(*expr),
        TgtStmtV::Let { pat, init } => match init {
            Some(i) => fns_marked_expr(*i.expr) && (match i.diverge {
                Some(b) => fns_marked_block(b),
                None => true,
            }),
            None => true,
        },
        TgtStmtV::Item { item } => fns_marked_item(*item),
    }
}

pub open spec fn fns_marked_stmts(ss: Seq<TgtStmtV>, n: int) -> bool
    decreases ss, n,
{
    if 0 < n <= ss.len() {
        fns_marked_stmts(ss, n - 1) && fns_marked_stmt(ss[n - 1])
    } else {
        true
    }
}

pub open spec fn fns_marked_params(ps: Seq<TgtParamV>, n: int) -> bool
    decreases ps, n,
{
    if 0 < n <= ps.len() {
        fns_marked_params(ps, n - 1) && fns_marked_ty(ps[n - 1].ty)
    } else {
        true
    }
}

pub open spec fn fns_marked_fields(fs: Seq<TgtFieldV>, n: int) -> bool
    decreases fs, n,
{
    if 0 < n <= fs.len() {
        fns_marked_fields(fs, n - 1) && fns_marked_ty(fs[n - 1].ty)
    } else {
        true
    }
}

pub open spec fn fns_marked_kind(k: TgtStructKindV) -> bool
    decreases k,
{
    match k {
        TgtStructKindV::Record(fs) => fns_marked_fields(fs, fs.len() as int),
        TgtStructKindV::Tuple(fs) => fns_marked_fields(fs, fs.len() as int),
        TgtStructKindV::Unit => true,
    }
}

pub open spec fn fns_marked_variants(vs: Seq<TgtVariantV>, n: int) -> bool
    decreases vs, n,
{
    if 0 < n <= vs.len() {
        fns_marked_variants(vs, n - 1) && fns_marked_kind(vs[n - 1].kind)
    } else {
        true
    }
}

pub open spec fn fns_marked_item(i: TgtItemV) -> bool
    decreases i,
{
    match i {
        TgtItemV::Fn { unsafety, params, ret, body, .. } => unsafety && fns_marked_params(
            params,
            params.len() as int,
        ) && (match ret {
            Some(t) => fns_marked_ty(*t),
            None => true,
        }) && fns_marked_block(body),
        TgtItemV::Struct { kind, .. } => fns_marked_kind(kind),
        TgtItemV::Enum { variants, .. } => fns_marked_variants(variants, variants.len() as int),
        TgtItemV::Const { ty, expr, .. } => fns_marked_ty(*ty) && fns_marked_expr(*expr),
        TgtItemV::Static { ty, expr, .. } => fns_marked_ty(*ty) && fns_marked_expr(*expr),
    }
}

pub open spec fn fns_marked_items(items: Seq<TgtItemV>, n: int) -> bool
    decreases items, n,
{
    if 0 < n <= items.len() {
        fns_marked_items(items, n - 1) && fns_marked_item(items[n - 1])
    } else {
        true
    }
}

/// Whether every function anywhere in a target unit carries the
/// unsafety marker.
pub open spec fn fns_marked_file(f: TgtFileV) -> bool {
    fns_marked_items(f.items, f.items.len() as int)
}

} // verus!
