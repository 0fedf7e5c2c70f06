//! Lowering of expressions, blocks and statements.

use vstd::prelude::*;

use crate::ast::{
    expr_views, lemma_expr_views, lemma_stmt_views, stmt_views, view_block, view_expr, view_stmt,
    SrcBlock, SrcExpr, SrcLit, SrcStmt,
};
use crate::diag::Reporter;
use crate::engine::helpers::{
    contains_nul, lower_plain_lit_exec, make_nul_in_string_diag, make_unsupported_construct_diag,
};
use crate::engine::items::lower_item;
use crate::engine::pats::lower_pat;
use crate::engine::tys::{lower_path, lower_ty};
use crate::lowering;
use crate::target::{
    lemma_tgt_expr_views, lemma_tgt_stmt_views, tgt_expr_views, tgt_stmt_views, view_tgt_block,
    view_tgt_expr, view_tgt_stmt, TgtBlock, TgtExpr, TgtLetInit, TgtStmt, TgtStmtV,
};

verus! {

broadcast use
    vstd::std_specs::vec::group_vec_axioms,
    vstd::string::group_string_axioms,
    lemma_expr_views,
    lemma_stmt_views,
    lemma_tgt_expr_views,
    lemma_tgt_stmt_views;

/// Lower one expression.
///
/// A reference-taking expression is rewritten into an address-of
/// operation behind a cast to a raw pointer of matching mutability; a
/// string literal becomes a null-terminated literal behind its pointer
/// accessor.
#[verifier::loop_isolation(false)]
pub fn lower_expr(e: &SrcExpr, cx: &mut Reporter) -> (r: TgtExpr)
    requires
        old(cx).wf(),
    ensures
        r@ == lowering::lower_expr(e@),
        final(cx)@ == old(cx)@ + lowering::expr_diags(e@),
        final(cx).wf(),
    decreases *e,
{
    let ghost diags0 = cx@;
    let r = match e {
        SrcExpr::Lit { lit: SrcLit::Str(s), span } => {
            let bytes = s.as_str().as_bytes();
            if contains_nul(bytes) {
                cx.report(make_nul_in_string_diag(*span));
                TgtExpr::Underscore
            } else {
                TgtExpr::CStrPtr { bytes: vstd::slice::slice_to_vec(bytes) }
            }
        },
        SrcExpr::Lit { lit, span } => TgtExpr::Lit { lit: lower_plain_lit_exec(lit) },
        SrcExpr::Path { path, span } => TgtExpr::Path { path: lower_path(path) },
        SrcExpr::Ref { mutable, inner, span } => {
            let i2 = lower_expr(inner, cx);
            TgtExpr::AddrOfCast { mutable: *mutable, inner: Box::new(i2) }
        },
        SrcExpr::Unary { op, inner, span } => {
            let i2 = lower_expr(inner, cx);
            TgtExpr::Unary { op: *op, inner: Box::new(i2) }
        },
        SrcExpr::Binary { op, lhs, rhs, span } => {
            let l2 = lower_expr(lhs, cx);
            let r2 = lower_expr(rhs, cx);
            TgtExpr::Binary { op: *op, lhs: Box::new(l2), rhs: Box::new(r2) }
        },
        SrcExpr::Call { callee, args, span } => {
            let c2 = lower_expr(callee, cx);
            let ghost diags1 = cx@;
            let mut out: Vec<TgtExpr> = Vec::new();
            let mut j: usize = 0;
            while j < args.len()
                invariant
                    j <= args.len(),
                    cx.wf(),
                    tgt_expr_views(out@, out@.len() as int) =~= lowering::lower_exprs(
                        expr_views(args@, args@.len() as int),
                        j as int,
                    ),
                    cx@ == diags1 + lowering::exprs_diags(
                        expr_views(args@, args@.len() as int),
                        j as int,
                    ),
                decreases args.len() - j,
            {
                proof {
                    assert(decreases_to!(*e => args@[j as int]));
                }
                let a2 = lower_expr(&args[j], cx);
                out.push(a2);
                j = j + 1;
            }
            TgtExpr::Call { callee: Box::new(c2), args: out }
        },
        SrcExpr::Paren { inner, span } => {
            let i2 = lower_expr(inner, cx);
            TgtExpr::Paren { inner: Box::new(i2) }
        },
        SrcExpr::Block { block, span } => {
            let b2 = lower_block(block, cx);
            TgtExpr::Block { block: b2 }
        },
        SrcExpr::Cast { inner, ty, span } => {
            let i2 = lower_expr(inner, cx);
            let t2 = lower_ty(ty, cx);
            TgtExpr::Cast { inner: Box::new(i2), ty: Box::new(t2) }
        },
        SrcExpr::Return { value, span } => {
            match value {
                Some(v) => {
                    let v2 = lower_expr(v, cx);
                    TgtExpr::Return { value: Some(Box::new(v2)) }
                },
                None => TgtExpr::Return { value: None },
            }
        },
        SrcExpr::Underscore { span } => TgtExpr::Underscore,
        SrcExpr::MacroCall { span } => {
            cx.report(make_unsupported_construct_diag(*span));
            TgtExpr::Underscore
        },
    };
    proof {
        assert(r@ =~= lowering::lower_expr(e@));
        assert(cx@ =~= old(cx)@ + lowering::expr_diags(e@));
    }
    r
}

/// Lower one block: its statements in order, then its trailing
/// expression, if any, as a final statement without a terminator.
#[verifier::loop_isolation(false)]
pub fn lower_block(b: &SrcBlock, cx: &mut Reporter) -> (r: TgtBlock)
    requires
        old(cx).wf(),
    ensures
        r@ == lowering::lower_block(b@),
        final(cx)@ == old(cx)@ + lowering::block_diags(b@),
        final(cx).wf(),
    decreases *b,
{
    let ghost diags0 = cx@;
    let mut out: Vec<TgtStmt> = Vec::new();
    let mut j: usize = 0;
    while j < b.stmts.len()
        invariant
            j <= b.stmts.len(),
            cx.wf(),
            tgt_stmt_views(out@, out@.len() as int) =~= lowering::lower_stmts(
                stmt_views(b.stmts@, b.stmts@.len() as int),
                j as int,
            ),
            cx@ == diags0 + lowering::stmts_diags(
                stmt_views(b.stmts@, b.stmts@.len() as int),
                j as int,
            ),
        decreases b.stmts.len() - j,
    {
        proof {
            assert(decreases_to!(*b => b.stmts@[j as int]));
        }
        let s2 = lower_stmt(&b.stmts[j], cx);
        match s2 {
            Some(ts) => {
                out.push(ts);
            },
            None => {},
        }
        j = j + 1;
    }
    let ghost sviews = stmt_views(b.stmts@, b.stmts@.len() as int);
    proof {
        assert(tgt_stmt_views(out@, out@.len() as int) =~= lowering::lower_stmts(
            sviews,
            b.stmts@.len() as int,
        ));
    }
    match &b.tail {
        Some(te) => {
            let t2 = lower_expr(te, cx);
            let ghost prev = out@;
            let tail_stmt = TgtStmt::Expr { expr: t2, semi: false };
            proof {
                assert(view_tgt_stmt(tail_stmt) == TgtStmtV::Expr {
                    expr: Box::new(lowering::lower_expr(view_expr(**te))),
                    semi: false,
                });
            }
            out.push(tail_stmt);
            proof {
                assert(tgt_stmt_views(out@, out@.len() as int) =~= tgt_stmt_views(
                    prev,
                    prev.len() as int,
                ).push(view_tgt_stmt(tail_stmt)));
                assert(b@.tail == Some(Box::new(view_expr(**te))));
            }
        },
        None => {},
    }
    let r = TgtBlock { stmts: out };
    proof {
        assert(r@.stmts =~= lowering::lower_block(b@).stmts);
        assert(cx@ =~= old(cx)@ + lowering::block_diags(b@));
    }
    r
}

/// Lower one statement.  A dropped item statement yields `None`; its
/// diagnostics are already reported.
pub fn lower_stmt(s: &SrcStmt, cx: &mut Reporter) -> (r: Option<TgtStmt>)
    requires
        old(cx).wf(),
    ensures
        (r is Some) == (lowering::lower_stmt(s@) is Some),
        (r matches Some(ts) ==> lowering::lower_stmt(s@) == Some(ts@)),
        final(cx)@ == old(cx)@ + lowering::stmt_diags(s@),
        final(cx).wf(),
    decreases *s,
{
    let r = match s {
        SrcStmt::Expr { expr, span } => {
            let e2 = lower_expr(expr, cx);
            Some(TgtStmt::Expr { expr: e2, semi: true })
        },
        SrcStmt::Let { pat, init, els, span } => {
            let p2 = lower_pat(pat, cx);
            let i2 = match init {
                Some(e) => {
                    let e2 = lower_expr(e, cx);
                    let d2 = match els {
                        Some(eb) => Some(lower_block(eb, cx)),
                        None => None,
                    };
                    Some(TgtLetInit { expr: Box::new(e2), diverge: d2 })
                },
                None => None,
            };
            Some(TgtStmt::Let { pat: p2, init: i2 })
        },
        SrcStmt::Item { item } => {
            let i2 = lower_item(item, cx);
            match i2 {
                Some(ti) => Some(TgtStmt::Item { item: Box::new(ti) }),
                None => None,
            }
        },
    };
    proof {
        assert(cx@ =~= old(cx)@ + lowering::stmt_diags(s@));
    }
    r
}

} // verus!
