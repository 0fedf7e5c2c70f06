//! The laws of the pass, stated and proved against the policy in
//! `lowering`.
//!
//! Together with the engine's contracts (each executable function returns
//! exactly `lowering::lower_*` of its input and reports exactly
//! `lowering::*_diags`), each law here is a statement about what the pass
//! produces on every input.

use vstd::prelude::*;

use crate::ast::{
    AttrV, SrcBlockV, SrcExprV, SrcFieldPatV, SrcFieldV, SrcFileV, SrcItemV, SrcLitV, SrcParamV,
    SrcPathV, SrcPatV, SrcStmtV, SrcStructKindV, SrcTyV, SrcVariantV, SrcVisV,
};
use crate::diag::{DiagV, Span};
use crate::lowering::{
    derive_clone_copy_attr, expr_diags, file_diags, lower_file, lower_item, lower_path, lower_ty,
    lower_vis, ty_diags, vis_diags,
};
use crate::measures::{
    fns_marked_block, fns_marked_expr, fns_marked_exprs, fns_marked_fields, fns_marked_file,
    fns_marked_item, fns_marked_items, fns_marked_kind, fns_marked_params, fns_marked_stmt,
    fns_marked_stmts, fns_marked_ty, fns_marked_tys, fns_marked_variants, is_ref_diag,
    lemma_ref_diag_count_add, never_source_count_block, never_source_count_expr,
    never_source_count_exprs, never_source_count_fields, never_source_count_file,
    never_source_count_item, never_source_count_items, never_source_count_kind,
    never_source_count_params, never_source_count_stmt, never_source_count_stmts,
    never_source_count_ty, never_source_count_tys, never_source_count_variants, ref_diag_count,
    ref_ty_count_block, ref_ty_count_expr, ref_ty_count_exprs, ref_ty_count_fields,
    ref_ty_count_file, ref_ty_count_item, ref_ty_count_items, ref_ty_count_kind,
    ref_ty_count_params, ref_ty_count_stmt, ref_ty_count_stmts, ref_ty_count_ty, ref_ty_count_tys,
    ref_ty_count_variants, tgt_never_count_block, tgt_never_count_expr, tgt_never_count_exprs,
    tgt_never_count_fields, tgt_never_count_file, tgt_never_count_item, tgt_never_count_items,
    tgt_never_count_kind, tgt_never_count_params, tgt_never_count_stmt, tgt_never_count_stmts,
    tgt_never_count_ty, tgt_never_count_tys, tgt_never_count_variants,
};
use crate::target::{
    TgtExprV, TgtFieldV, TgtItemV, TgtParamV, TgtPathV, TgtStmtV, TgtTyV, TgtVariantV, TgtVisV,
};

verus! {

broadcast use vstd::std_specs::vec::group_vec_axioms, vstd::string::group_string_axioms;

// ---------------------------------------------------------------------------
// Determinism.
// ---------------------------------------------------------------------------

/// Lowering an unchanged tree twice yields identical target trees and
/// identical diagnostics: the pass is a function of the source tree
/// alone.  (The engine's contracts pin its results to `lower_file` and
/// `file_diags`, so two runs on equal trees cannot differ.)
pub proof fn lemma_lowering_deterministic(a: SrcFileV, b: SrcFileV)
    requires
        a == b,
    ensures
        lower_file(a) == lower_file(b),
        file_diags(a) == file_diags(b),
{
}

// ---------------------------------------------------------------------------
// Pointer lowering.
// ---------------------------------------------------------------------------

/// A type built only from pointer, array, tuple, path, never and infer
/// nodes, with literal array lengths.
pub open spec fn plain_ty(t: SrcTyV) -> bool
    decreases t,
{
    match t {
        SrcTyV::Ptr { mutable, elem, span } => plain_ty(*elem),
        SrcTyV::Array { elem, len, span } => plain_ty(*elem) && (*len matches SrcExprV::Lit {
            lit,
            span,
        } && !(lit is Str)),
        SrcTyV::Tuple { elems, span } => plain_tys(elems, elems.len() as int),
        SrcTyV::Path { path, span } => true,
        SrcTyV::Never { span } => true,
        SrcTyV::Infer { span } => true,
        _ => false,
    }
}

/// Whether the first `n` types of `ts` are all plain.
pub open spec fn plain_tys(ts: Seq<SrcTyV>, n: int) -> bool
    decreases ts, n,
{
    if 0 < n <= ts.len() {
        plain_tys(ts, n - 1) && plain_ty(ts[n - 1])
    } else {
        true
    }
}

/// A plain type produces no diagnostics.
proof fn lemma_plain_ty_clean(t: SrcTyV)
    requires
        plain_ty(t),
    ensures
        ty_diags(t) =~= Seq::<DiagV>::empty(),
    decreases t,
{
    match t {
        SrcTyV::Ptr { mutable, elem, span } => {
            lemma_plain_ty_clean(*elem);
        },
        SrcTyV::Array { elem, len, span } => {
            lemma_plain_ty_clean(*elem);
            assert(crate::lowering::expr_diags(*len) =~= Seq::<DiagV>::empty());
        },
        SrcTyV::Tuple { elems, span } => {
            lemma_plain_tys_clean(elems, elems.len() as int);
        },
        _ => {},
    }
}

proof fn lemma_plain_tys_clean(ts: Seq<SrcTyV>, n: int)
    requires
        plain_tys(ts, n),
    ensures
        crate::lowering::tys_diags(ts, n) =~= Seq::<DiagV>::empty(),
    decreases ts, n,
{
    if 0 < n <= ts.len() {
        lemma_plain_tys_clean(ts, n - 1);
        lemma_plain_ty_clean(ts[n - 1]);
    }
}

/// Pointer lowering is structural: `*const T` and `*mut T` lower to a
/// pointer of the same mutability wrapping the lowered `T` — and for a
/// `T` built only from pointer, array, tuple, path, never and infer
/// nodes, the whole pointer type lowers without any diagnostic.
pub proof fn lemma_pointer_lowering(mutable: bool, t: SrcTyV, span: Span)
    ensures
        lower_ty(SrcTyV::Ptr { mutable, elem: Box::new(t), span }) == (TgtTyV::Ptr {
            mutable,
            elem: Box::new(lower_ty(t)),
        }),
        plain_ty(t) ==> ty_diags(SrcTyV::Ptr { mutable, elem: Box::new(t), span })
            =~= Seq::<DiagV>::empty(),
{
    if plain_ty(t) {
        lemma_plain_ty_clean(t);
    }
}

// ---------------------------------------------------------------------------
// The injected derive.
// ---------------------------------------------------------------------------

/// How many `{Clone, Copy}` derives an attribute list holds.
pub open spec fn clone_copy_derive_count(attrs: Seq<AttrV>) -> nat
    decreases attrs.len(),
{
    if attrs.len() == 0 {
        0
    } else {
        clone_copy_derive_count(attrs.drop_last()) + (if attrs.last() == derive_clone_copy_attr() {
            1nat
        } else {
            0nat
        })
    }
}

/// Every lowered struct declaration's attribute list is the source list
/// with the `{Clone, Copy}` derive appended after it — and, where the
/// source did not already carry that derive, the result carries it
/// exactly once.
pub proof fn lemma_struct_derive(i: SrcItemV)
    requires
        i matches SrcItemV::Struct { name, vis, attrs, kind, span }
            && clone_copy_derive_count(attrs) == 0,
    ensures
        lower_item(i) matches Some(ti) && (ti matches TgtItemV::Struct { attrs: out_attrs, .. }
            && out_attrs == i->Struct_attrs.push(derive_clone_copy_attr())
            && clone_copy_derive_count(out_attrs) == 1),
{
    let attrs = i->Struct_attrs;
    let out = attrs.push(derive_clone_copy_attr());
    assert(out.drop_last() =~= attrs);
    assert(out.last() == derive_clone_copy_attr());
}

/// The same for every lowered enum declaration.
pub proof fn lemma_enum_derive(i: SrcItemV)
    requires
        i matches SrcItemV::Enum { name, vis, attrs, variants, span }
            && clone_copy_derive_count(attrs) == 0,
    ensures
        lower_item(i) matches Some(ti) && (ti matches TgtItemV::Enum { attrs: out_attrs, .. }
            && out_attrs == i->Enum_attrs.push(derive_clone_copy_attr())
            && clone_copy_derive_count(out_attrs) == 1),
{
    let attrs = i->Enum_attrs;
    let out = attrs.push(derive_clone_copy_attr());
    assert(out.drop_last() =~= attrs);
    assert(out.last() == derive_clone_copy_attr());
}

// ---------------------------------------------------------------------------
// The visibility table.
// ---------------------------------------------------------------------------

/// The visibility policy, case by case: unspecified and `pub` map to
/// public; `pub(crate)`, `pub(super)` and `pub(self)` map to the
/// restriction carrying that keyword as its path; `pub(in path)` maps to
/// the restriction carrying the same path, segment for segment, when the
/// path is non-empty.  Only an empty `pub(in)` path produces a
/// diagnostic.
pub proof fn lemma_visibility_policy(v: Option<SrcVisV>)
    ensures
        v is None ==> lower_vis(v) == TgtVisV::Public,
        v == Some(SrcVisV::Pub) ==> lower_vis(v) == TgtVisV::Public,
        v == Some(SrcVisV::PubCrate) ==> lower_vis(v) == (TgtVisV::Restricted {
            path: TgtPathV { segments: seq!["crate"@] },
        }),
        v == Some(SrcVisV::PubSuper) ==> lower_vis(v) == (TgtVisV::Restricted {
            path: TgtPathV { segments: seq!["super"@] },
        }),
        v == Some(SrcVisV::PubSelf) ==> lower_vis(v) == (TgtVisV::Restricted {
            path: TgtPathV { segments: seq!["self"@] },
        }),
        (v matches Some(SrcVisV::PubIn { path, span }) && path.segments.len() > 0) ==> lower_vis(v)
            == (TgtVisV::Restricted { path: lower_path(v->0->PubIn_path) }),
        vis_diags(v).len() > 0 <==> (v matches Some(SrcVisV::PubIn { path, span })
            && path.segments.len() == 0),
{
}

// ---------------------------------------------------------------------------
// Diagnostic counts, placeholder counts and the unsafety marker, by one
// induction over the source tree.
// ---------------------------------------------------------------------------

/// Only the reference-type rejection carries the reference-type title.
proof fn lemma_diag_titles()
    ensures
        forall|s: Span| #[trigger] is_ref_diag(crate::lowering::ref_type_diag(s)),
        forall|s: Span| !#[trigger] is_ref_diag(crate::lowering::unsupported_construct_diag(s)),
        forall|s: Span| !#[trigger] is_ref_diag(crate::lowering::unsupported_pattern_diag(s)),
        forall|s: Span| !#[trigger] is_ref_diag(crate::lowering::partial_type_diag(s)),
        forall|s: Span| !#[trigger] is_ref_diag(crate::lowering::missing_body_diag(s)),
        forall|s: Span| !#[trigger] is_ref_diag(crate::lowering::bad_vis_path_diag(s)),
        forall|s: Span| !#[trigger] is_ref_diag(crate::lowering::nul_in_string_diag(s)),
{
    reveal_strlit("reference type used");
    reveal_strlit("unsupported construct");
    reveal_strlit("unsupported pattern");
    reveal_strlit("partially supported type");
    reveal_strlit("missing body");
    reveal_strlit("unresolvable visibility path");
    reveal_strlit("nul byte in string literal");
    assert("reference type used"@.len() == 19);
    assert("unsupported construct"@.len() == 21);
    assert("unsupported pattern"@[0] == 'u' && "reference type used"@[0] == 'r');
    assert("partially supported type"@.len() == 24);
    assert("missing body"@.len() == 12);
    assert("unresolvable visibility path"@.len() == 28);
    assert("nul byte in string literal"@.len() == 26);
}

proof fn lemma_rd_one(d: DiagV)
    ensures
        ref_diag_count(seq![d]) == (if is_ref_diag(d) {
            1nat
        } else {
            0nat
        }),
{
    assert(seq![d].drop_last() =~= Seq::<DiagV>::empty());
    assert(ref_diag_count(Seq::<DiagV>::empty()) == 0);
    assert(seq![d].last() == d);
}

proof fn lemma_rd_empty()
    ensures
        ref_diag_count(Seq::<DiagV>::empty()) == 0,
{
}

/// A visibility never yields a reference-type diagnostic.
proof fn cl_vis(v: Option<SrcVisV>)
    ensures
        ref_diag_count(vis_diags(v)) == 0,
{
    lemma_diag_titles();
    match v {
        Some(SrcVisV::PubIn { path, span }) => {
            if path.segments.len() == 0 {
                lemma_rd_one(crate::lowering::bad_vis_path_diag(span));
            }
        },
        _ => {},
    }
}

proof fn nvr_tys_push(s: Seq<TgtTyV>, x: TgtTyV, n: int)
    requires
        0 <= n <= s.len(),
    ensures
        tgt_never_count_tys(s.push(x), n) == tgt_never_count_tys(s, n),
        fns_marked_tys(s.push(x), n) == fns_marked_tys(s, n),
    decreases n,
{
    if 0 < n {
        nvr_tys_push(s, x, n - 1);
    }
}

proof fn nvr_exprs_push(s: Seq<TgtExprV>, x: TgtExprV, n: int)
    requires
        0 <= n <= s.len(),
    ensures
        tgt_never_count_exprs(s.push(x), n) == tgt_never_count_exprs(s, n),
        fns_marked_exprs(s.push(x), n) == fns_marked_exprs(s, n),
    decreases n,
{
    if 0 < n {
        nvr_exprs_push(s, x, n - 1);
    }
}

proof fn nvr_stmts_push(s: Seq<TgtStmtV>, x: TgtStmtV, n: int)
    requires
        0 <= n <= s.len(),
    ensures
        tgt_never_count_stmts(s.push(x), n) == tgt_never_count_stmts(s, n),
        fns_marked_stmts(s.push(x), n) == fns_marked_stmts(s, n),
    decreases n,
{
    if 0 < n {
        nvr_stmts_push(s, x, n - 1);
    }
}

proof fn nvr_params_push(s: Seq<TgtParamV>, x: TgtParamV, n: int)
    requires
        0 <= n <= s.len(),
    ensures
        tgt_never_count_params(s.push(x), n) == tgt_never_count_params(s, n),
        fns_marked_params(s.push(x), n) == fns_marked_params(s, n),
    decreases n,
{
    if 0 < n {
        nvr_params_push(s, x, n - 1);
    }
}

proof fn nvr_fields_push(s: Seq<TgtFieldV>, x: TgtFieldV, n: int)
    requires
        0 <= n <= s.len(),
    ensures
        tgt_never_count_fields(s.push(x), n) == tgt_never_count_fields(s, n),
        fns_marked_fields(s.push(x), n) == fns_marked_fields(s, n),
    decreases n,
{
    if 0 < n {
        nvr_fields_push(s, x, n - 1);
    }
}

proof fn nvr_variants_push(s: Seq<TgtVariantV>, x: TgtVariantV, n: int)
    requires
        0 <= n <= s.len(),
    ensures
        tgt_never_count_variants(s.push(x), n) == tgt_never_count_variants(s, n),
        fns_marked_variants(s.push(x), n) == fns_marked_variants(s, n),
    decreases n,
{
    if 0 < n {
        nvr_variants_push(s, x, n - 1);
    }
}

proof fn nvr_items_push(s: Seq<TgtItemV>, x: TgtItemV, n: int)
    requires
        0 <= n <= s.len(),
    ensures
        tgt_never_count_items(s.push(x), n) == tgt_never_count_items(s, n),
        fns_marked_items(s.push(x), n) == fns_marked_items(s, n),
    decreases n,
{
    if 0 < n {
        nvr_items_push(s, x, n - 1);
    }
}

proof fn cl_ty(t: SrcTyV)
    ensures
        ref_diag_count(ty_diags(t)) == ref_ty_count_ty(t),
        tgt_never_count_ty(lower_ty(t)) == never_source_count_ty(t),
        fns_marked_ty(lower_ty(t)),
    decreases t,
{
    lemma_diag_titles();
    match t {
        SrcTyV::Ptr { elem, .. } => {
            cl_ty(*elem);
        },
        SrcTyV::Ref { elem, span, .. } => {
            cl_ty(*elem);
            lemma_ref_diag_count_add(seq![crate::lowering::ref_type_diag(span)], ty_diags(*elem));
            lemma_rd_one(crate::lowering::ref_type_diag(span));
        },
        SrcTyV::Array { elem, len, .. } => {
            cl_ty(*elem);
            cl_expr(*len);
            lemma_ref_diag_count_add(ty_diags(*elem), expr_diags(*len));
        },
        SrcTyV::Slice { elem, .. } => {
            cl_ty(*elem);
        },
        SrcTyV::Tuple { elems, .. } => {
            cl_tys(elems, elems.len() as int);
        },
        SrcTyV::Paren { inner, .. } => {
            cl_ty(*inner);
        },
        SrcTyV::FnPtr { span } => {
            lemma_rd_one(crate::lowering::partial_type_diag(span));
        },
        SrcTyV::TraitObject { span } => {
            lemma_rd_one(crate::lowering::partial_type_diag(span));
        },
        SrcTyV::ImplTrait { span } => {
            lemma_rd_one(crate::lowering::partial_type_diag(span));
        },
        SrcTyV::Macro { span } => {
            lemma_rd_one(crate::lowering::unsupported_construct_diag(span));
        },
        SrcTyV::For { span } => {
            lemma_rd_one(crate::lowering::unsupported_construct_diag(span));
        },
        _ => {},
    }
}

proof fn cl_tys(ts: Seq<SrcTyV>, n: int)
    ensures
        ref_diag_count(crate::lowering::tys_diags(ts, n)) == ref_ty_count_tys(ts, n),
        crate::lowering::lower_tys(ts, n).len() == (if 0 <= n <= ts.len() {
            n
        } else {
            0
        }),
        tgt_never_count_tys(crate::lowering::lower_tys(ts, n), n) == never_source_count_tys(ts, n),
        fns_marked_tys(crate::lowering::lower_tys(ts, n), n),
    decreases ts, n,
{
    if 0 < n <= ts.len() {
        cl_tys(ts, n - 1);
        cl_ty(ts[n - 1]);
        lemma_ref_diag_count_add(crate::lowering::tys_diags(ts, n - 1), ty_diags(ts[n - 1]));
        nvr_tys_push(crate::lowering::lower_tys(ts, n - 1), lower_ty(ts[n - 1]), n - 1);
    }
}

proof fn cl_expr(e: SrcExprV)
    ensures
        ref_diag_count(expr_diags(e)) == ref_ty_count_expr(e),
        tgt_never_count_expr(crate::lowering::lower_expr(e)) == never_source_count_expr(e),
        fns_marked_expr(crate::lowering::lower_expr(e)),
    decreases e,
{
    lemma_diag_titles();
    match e {
        SrcExprV::Lit { lit: SrcLitV::Str(s), span } => {
            if crate::lowering::str_bytes(s).contains(0u8) {
                lemma_rd_one(crate::lowering::nul_in_string_diag(span));
            }
        },
        SrcExprV::Ref { inner, .. } => {
            cl_expr(*inner);
        },
        SrcExprV::Unary { inner, .. } => {
            cl_expr(*inner);
        },
        SrcExprV::Binary { lhs, rhs, .. } => {
            cl_expr(*lhs);
            cl_expr(*rhs);
            lemma_ref_diag_count_add(expr_diags(*lhs), expr_diags(*rhs));
        },
        SrcExprV::Call { callee, args, .. } => {
            cl_expr(*callee);
            cl_exprs(args, args.len() as int);
            lemma_ref_diag_count_add(
                expr_diags(*callee),
                crate::lowering::exprs_diags(args, args.len() as int),
            );
        },
        SrcExprV::Paren { inner, .. } => {
            cl_expr(*inner);
        },
        SrcExprV::Block { block, .. } => {
            cl_block(block);
        },
        SrcExprV::Cast { inner, ty, .. } => {
            cl_expr(*inner);
            cl_ty(*ty);
            lemma_ref_diag_count_add(expr_diags(*inner), ty_diags(*ty));
        },
        SrcExprV::Return { value, .. } => {
            match value {
                Some(v) => {
                    cl_expr(*v);
                },
                None => {},
            }
        },
        SrcExprV::MacroCall { span } => {
            lemma_rd_one(crate::lowering::unsupported_construct_diag(span));
        },
        _ => {},
    }
}

proof fn cl_exprs(es: Seq<SrcExprV>, n: int)
    ensures
        ref_diag_count(crate::lowering::exprs_diags(es, n)) == ref_ty_count_exprs(es, n),
        crate::lowering::lower_exprs(es, n).len() == (if 0 <= n <= es.len() {
            n
        } else {
            0
        }),
        tgt_never_count_exprs(crate::lowering::lower_exprs(es, n), n) == never_source_count_exprs(
            es,
            n,
        ),
        fns_marked_exprs(crate::lowering::lower_exprs(es, n), n),
    decreases es, n,
{
    if 0 < n <= es.len() {
        cl_exprs(es, n - 1);
        cl_expr(es[n - 1]);
        lemma_ref_diag_count_add(crate::lowering::exprs_diags(es, n - 1), expr_diags(es[n - 1]));
        nvr_exprs_push(
            crate::lowering::lower_exprs(es, n - 1),
            crate::lowering::lower_expr(es[n - 1]),
            n - 1,
        );
    }
}

proof fn cl_block(b: SrcBlockV)
    ensures
        ref_diag_count(crate::lowering::block_diags(b)) == ref_ty_count_block(b),
        tgt_never_count_block(crate::lowering::lower_block(b)) == never_source_count_block(b),
        fns_marked_block(crate::lowering::lower_block(b)),
    decreases b,
{
    cl_stmts(b.stmts, b.stmts.len() as int);
    let base = crate::lowering::lower_stmts(b.stmts, b.stmts.len() as int);
    match b.tail {
        Some(e) => {
            cl_expr(*e);
            lemma_ref_diag_count_add(
                crate::lowering::stmts_diags(b.stmts, b.stmts.len() as int),
                expr_diags(*e),
            );
            let tail_stmt = TgtStmtV::Expr {
                expr: Box::new(crate::lowering::lower_expr(*e)),
                semi: false,
            };
            nvr_stmts_push(base, tail_stmt, base.len() as int);
        },
        None => {
            lemma_ref_diag_count_add(
                crate::lowering::stmts_diags(b.stmts, b.stmts.len() as int),
                Seq::<DiagV>::empty(),
            );
        },
    }
}

proof fn cl_stmt(s: SrcStmtV)
    ensures
        ref_diag_count(crate::lowering::stmt_diags(s)) == ref_ty_count_stmt(s),
        (crate::lowering::lower_stmt(s) matches Some(ts) ==> tgt_never_count_stmt(ts)
            == never_source_count_stmt(s) && fns_marked_stmt(ts)),
        (crate::lowering::lower_stmt(s) is None ==> never_source_count_stmt(s) == 0),
    decreases s,
{
    match s {
        SrcStmtV::Expr { expr, .. } => {
            cl_expr(*expr);
        },
        SrcStmtV::Let { pat, init, els, .. } => {
            cl_pat(*pat);
            match init {
                Some(e) => {
                    cl_expr(*e);
                    match els {
                        Some(eb) => {
                            cl_block(eb);
                            lemma_ref_diag_count_add(
                                expr_diags(*e),
                                crate::lowering::block_diags(eb),
                            );
                            lemma_ref_diag_count_add(
                                crate::lowering::pat_diags(*pat),
                                expr_diags(*e) + crate::lowering::block_diags(eb),
                            );
                        },
                        None => {
                            lemma_ref_diag_count_add(
                                expr_diags(*e),
                                Seq::<DiagV>::empty(),
                            );
                            lemma_ref_diag_count_add(
                                crate::lowering::pat_diags(*pat),
                                expr_diags(*e) + Seq::<DiagV>::empty(),
                            );
                        },
                    }
                },
                None => {
                    lemma_ref_diag_count_add(
                        crate::lowering::pat_diags(*pat),
                        Seq::<DiagV>::empty(),
                    );
                },
            }
        },
        SrcStmtV::Item { item } => {
            cl_item(*item);
        },
    }
}

proof fn cl_stmts(ss: Seq<SrcStmtV>, n: int)
    ensures
        ref_diag_count(crate::lowering::stmts_diags(ss, n)) == ref_ty_count_stmts(ss, n),
        crate::lowering::lower_stmts(ss, n).len() <= (if 0 <= n {
            n
        } else {
            0
        }),
        tgt_never_count_stmts(
            crate::lowering::lower_stmts(ss, n),
            crate::lowering::lower_stmts(ss, n).len() as int,
        ) == never_source_count_stmts(ss, n),
        fns_marked_stmts(
            crate::lowering::lower_stmts(ss, n),
            crate::lowering::lower_stmts(ss, n).len() as int,
        ),
    decreases ss, n,
{
    if 0 < n <= ss.len() {
        cl_stmts(ss, n - 1);
        cl_stmt(ss[n - 1]);
        lemma_ref_diag_count_add(
            crate::lowering::stmts_diags(ss, n - 1),
            crate::lowering::stmt_diags(ss[n - 1]),
        );
        let prev = crate::lowering::lower_stmts(ss, n - 1);
        match crate::lowering::lower_stmt(ss[n - 1]) {
            Some(ts) => {
                nvr_stmts_push(prev, ts, prev.len() as int);
            },
            None => {},
        }
    }
}

proof fn cl_pat(p: SrcPatV)
    ensures
        ref_diag_count(crate::lowering::pat_diags(p)) == 0,
    decreases p,
{
    lemma_diag_titles();
    match p {
        SrcPatV::Ident { sub, .. } => {
            match sub {
                Some(q) => {
                    cl_pat(*q);
                },
                None => {},
            }
        },
        SrcPatV::Record { fields, .. } => {
            cl_field_pats(fields, fields.len() as int);
        },
        SrcPatV::TupleStruct { elems, .. } => {
            cl_pats(elems, elems.len() as int);
        },
        SrcPatV::Tuple { elems, .. } => {
            cl_pats(elems, elems.len() as int);
        },
        SrcPatV::Or { alts, .. } => {
            cl_pats(alts, alts.len() as int);
        },
        SrcPatV::Slice { elems, .. } => {
            cl_pats(elems, elems.len() as int);
        },
        SrcPatV::Paren { inner, .. } => {
            cl_pat(*inner);
        },
        SrcPatV::Lit { span, .. } => {
            lemma_rd_one(crate::lowering::unsupported_pattern_diag(span));
        },
        SrcPatV::Boxed { span } => {
            lemma_rd_one(crate::lowering::unsupported_pattern_diag(span));
        },
        SrcPatV::Ref { span } => {
            lemma_rd_one(crate::lowering::unsupported_pattern_diag(span));
        },
        SrcPatV::Macro { span } => {
            lemma_rd_one(crate::lowering::unsupported_pattern_diag(span));
        },
        SrcPatV::ConstBlock { span } => {
            lemma_rd_one(crate::lowering::unsupported_pattern_diag(span));
        },
        _ => {},
    }
}

proof fn cl_pats(ps: Seq<SrcPatV>, n: int)
    ensures
        ref_diag_count(crate::lowering::pats_diags(ps, n)) == 0,
    decreases ps, n,
{
    if 0 < n <= ps.len() {
        cl_pats(ps, n - 1);
        cl_pat(ps[n - 1]);
        lemma_ref_diag_count_add(
            crate::lowering::pats_diags(ps, n - 1),
            crate::lowering::pat_diags(ps[n - 1]),
        );
    }
}

proof fn cl_field_pats(fs: Seq<SrcFieldPatV>, n: int)
    ensures
        ref_diag_count(crate::lowering::field_pats_diags(fs, n)) == 0,
    decreases fs, n,
{
    if 0 < n <= fs.len() {
        cl_field_pats(fs, n - 1);
        cl_pat(fs[n - 1].pat);
        lemma_ref_diag_count_add(
            crate::lowering::field_pats_diags(fs, n - 1),
            crate::lowering::pat_diags(fs[n - 1].pat),
        );
    }
}

proof fn cl_params(ps: Seq<SrcParamV>, n: int)
    ensures
        ref_diag_count(crate::lowering::params_diags(ps, n)) == ref_ty_count_params(ps, n),
        crate::lowering::lower_params(ps, n).len() == (if 0 <= n <= ps.len() {
            n
        } else {
            0
        }),
        tgt_never_count_params(crate::lowering::lower_params(ps, n), n)
            == never_source_count_params(ps, n),
        fns_marked_params(crate::lowering::lower_params(ps, n), n),
    decreases ps, n,
{
    if 0 < n <= ps.len() {
        cl_params(ps, n - 1);
        cl_pat(ps[n - 1].pat);
        cl_ty(ps[n - 1].ty);
        lemma_ref_diag_count_add(
            crate::lowering::pat_diags(ps[n - 1].pat),
            ty_diags(ps[n - 1].ty),
        );
        lemma_ref_diag_count_add(
            crate::lowering::params_diags(ps, n - 1),
            crate::lowering::param_diags(ps[n - 1]),
        );
        nvr_params_push(
            crate::lowering::lower_params(ps, n - 1),
            crate::lowering::lower_param(ps[n - 1]),
            n - 1,
        );
    }
}

proof fn cl_fields(fs: Seq<SrcFieldV>, n: int)
    ensures
        ref_diag_count(crate::lowering::fields_diags(fs, n)) == ref_ty_count_fields(fs, n),
        crate::lowering::lower_fields(fs, n).len() == (if 0 <= n <= fs.len() {
            n
        } else {
            0
        }),
        tgt_never_count_fields(crate::lowering::lower_fields(fs, n), n)
            == never_source_count_fields(fs, n),
        fns_marked_fields(crate::lowering::lower_fields(fs, n), n),
    decreases fs, n,
{
    if 0 < n <= fs.len() {
        cl_fields(fs, n - 1);
        cl_vis(fs[n - 1].vis);
        cl_ty(fs[n - 1].ty);
        lemma_ref_diag_count_add(vis_diags(fs[n - 1].vis), ty_diags(fs[n - 1].ty));
        lemma_ref_diag_count_add(
            crate::lowering::fields_diags(fs, n - 1),
            crate::lowering::field_diags(fs[n - 1]),
        );
        nvr_fields_push(
            crate::lowering::lower_fields(fs, n - 1),
            crate::lowering::lower_field(fs[n - 1]),
            n - 1,
        );
    }
}

proof fn cl_kind(k: SrcStructKindV)
    ensures
        ref_diag_count(crate::lowering::struct_kind_diags(k)) == ref_ty_count_kind(k),
        tgt_never_count_kind(crate::lowering::lower_struct_kind(k)) == never_source_count_kind(k),
        fns_marked_kind(crate::lowering::lower_struct_kind(k)),
    decreases k,
{
    match k {
        SrcStructKindV::Record(fs) => {
            cl_fields(fs, fs.len() as int);
        },
        SrcStructKindV::Tuple(fs) => {
            cl_fields(fs, fs.len() as int);
        },
        SrcStructKindV::Unit => {},
    }
}

proof fn cl_variants(vs: Seq<SrcVariantV>, n: int)
    ensures
        ref_diag_count(crate::lowering::variants_diags(vs, n)) == ref_ty_count_variants(vs, n),
        crate::lowering::lower_variants(vs, n).len() == (if 0 <= n <= vs.len() {
            n
        } else {
            0
        }),
        tgt_never_count_variants(crate::lowering::lower_variants(vs, n), n)
            == never_source_count_variants(vs, n),
        fns_marked_variants(crate::lowering::lower_variants(vs, n), n),
    decreases vs, n,
{
    if 0 < n <= vs.len() {
        cl_variants(vs, n - 1);
        cl_kind(vs[n - 1].kind);
        lemma_ref_diag_count_add(
            crate::lowering::variants_diags(vs, n - 1),
            crate::lowering::struct_kind_diags(vs[n - 1].kind),
        );
        nvr_variants_push(
            crate::lowering::lower_variants(vs, n - 1),
            crate::lowering::lower_variant(vs[n - 1]),
            n - 1,
        );
    }
}

proof fn cl_item(i: SrcItemV)
    ensures
        ref_diag_count(crate::lowering::item_diags(i)) == ref_ty_count_item(i),
        (lower_item(i) matches Some(ti) ==> tgt_never_count_item(ti) == never_source_count_item(i)
            && fns_marked_item(ti)),
        (lower_item(i) is None ==> never_source_count_item(i) == 0),
    decreases i,
{
    lemma_diag_titles();
    match i {
        SrcItemV::Fn { vis, params, ret, body, span, .. } => {
            match body {
                None => {
                    lemma_rd_one(crate::lowering::missing_body_diag(span));
                },
                Some(b) => {
                    cl_vis(vis);
                    cl_params(params, params.len() as int);
                    cl_block(b);
                    let rd = match ret {
                        Some(t) => {
                            cl_ty(*t);
                            ty_diags(*t)
                        },
                        None => Seq::<DiagV>::empty(),
                    };
                    lemma_ref_diag_count_add(vis_diags(vis), crate::lowering::params_diags(
                        params,
                        params.len() as int,
                    ));
                    lemma_ref_diag_count_add(
                        vis_diags(vis) + crate::lowering::params_diags(
                            params,
                            params.len() as int,
                        ),
                        rd,
                    );
                    lemma_ref_diag_count_add(
                        vis_diags(vis) + crate::lowering::params_diags(
                            params,
                            params.len() as int,
                        ) + rd,
                        crate::lowering::block_diags(b),
                    );
                },
            }
        },
        SrcItemV::Struct { vis, kind, .. } => {
            cl_vis(vis);
            cl_kind(kind);
            lemma_ref_diag_count_add(vis_diags(vis), crate::lowering::struct_kind_diags(kind));
        },
        SrcItemV::Enum { vis, variants, .. } => {
            cl_vis(vis);
            cl_variants(variants, variants.len() as int);
            lemma_ref_diag_count_add(
                vis_diags(vis),
                crate::lowering::variants_diags(variants, variants.len() as int),
            );
        },
        SrcItemV::Const { vis, ty, body, span, .. } => {
            match body {
                None => {
                    lemma_rd_one(crate::lowering::missing_body_diag(span));
                },
                Some(e) => {
                    cl_vis(vis);
                    cl_ty(*ty);
                    cl_expr(*e);
                    lemma_ref_diag_count_add(vis_diags(vis), ty_diags(*ty));
                    lemma_ref_diag_count_add(vis_diags(vis) + ty_diags(*ty), expr_diags(*e));
                },
            }
        },
        SrcItemV::Static { vis, ty, body, span, .. } => {
            match body {
                None => {
                    lemma_rd_one(crate::lowering::missing_body_diag(span));
                },
                Some(e) => {
                    cl_vis(vis);
                    cl_ty(*ty);
                    cl_expr(*e);
                    lemma_ref_diag_count_add(vis_diags(vis), ty_diags(*ty));
                    lemma_ref_diag_count_add(vis_diags(vis) + ty_diags(*ty), expr_diags(*e));
                },
            }
        },
        SrcItemV::Trait { span } => {
            lemma_rd_one(crate::lowering::unsupported_construct_diag(span));
        },
        SrcItemV::Impl { span } => {
            lemma_rd_one(crate::lowering::unsupported_construct_diag(span));
        },
        SrcItemV::Module { span } => {
            lemma_rd_one(crate::lowering::unsupported_construct_diag(span));
        },
        SrcItemV::TypeAlias { span } => {
            lemma_rd_one(crate::lowering::unsupported_construct_diag(span));
        },
        SrcItemV::MacroDef { span } => {
            lemma_rd_one(crate::lowering::unsupported_construct_diag(span));
        },
        SrcItemV::Use { span } => {
            lemma_rd_one(crate::lowering::unsupported_construct_diag(span));
        },
        SrcItemV::Union { span } => {
            lemma_rd_one(crate::lowering::unsupported_construct_diag(span));
        },
    }
}

proof fn cl_items(items: Seq<SrcItemV>, n: int)
    ensures
        ref_diag_count(crate::lowering::items_diags(items, n)) == ref_ty_count_items(items, n),
        crate::lowering::lower_items(items, n).len() <= (if 0 <= n {
            n
        } else {
            0
        }),
        tgt_never_count_items(
            crate::lowering::lower_items(items, n),
            crate::lowering::lower_items(items, n).len() as int,
        ) == never_source_count_items(items, n),
        fns_marked_items(
            crate::lowering::lower_items(items, n),
            crate::lowering::lower_items(items, n).len() as int,
        ),
    decreases items, n,
{
    if 0 < n <= items.len() {
        cl_items(items, n - 1);
        cl_item(items[n - 1]);
        lemma_ref_diag_count_add(
            crate::lowering::items_diags(items, n - 1),
            crate::lowering::item_diags(items[n - 1]),
        );
        let prev = crate::lowering::lower_items(items, n - 1);
        match lower_item(items[n - 1]) {
            Some(ti) => {
                nvr_items_push(prev, ti, prev.len() as int);
            },
            None => {},
        }
    }
}

// ---------------------------------------------------------------------------
// The public counting laws.
// ---------------------------------------------------------------------------

/// Each reference type the pass visits yields exactly one "reference
/// type used" diagnostic: the number of such diagnostics of a unit
/// equals the number of visited reference types.  (The subtree of a
/// dropped bodiless declaration is not visited.)
pub proof fn lemma_ref_diag_count_exact(f: SrcFileV)
    ensures
        ref_diag_count(file_diags(f)) == ref_ty_count_file(f),
{
    cl_items(f.items, f.items.len() as int);
}

/// The target tree holds exactly one `Never` placeholder for each
/// placeholder source the pass visits: each maximal rejected subtree (a
/// reference type, a macro or higher-ranked type) and each source never
/// type outside a rejected subtree.
pub proof fn lemma_never_placeholder_count(f: SrcFileV)
    ensures
        tgt_never_count_file(crate::lowering::lower_file(f)) == never_source_count_file(f),
{
    cl_items(f.items, f.items.len() as int);
}

/// Every function anywhere in the target tree carries the explicit
/// unsafety marker, regardless of what the source said.
pub proof fn lemma_output_fns_unsafe(f: SrcFileV)
    ensures
        crate::measures::fns_marked_file(crate::lowering::lower_file(f)),
{
    cl_items(f.items, f.items.len() as int);
}

} // verus!
