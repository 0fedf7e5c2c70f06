//! Lowering of patterns.

use vstd::prelude::*;

use crate::ast::{
    field_pat_views, lemma_field_pat_views, lemma_pat_views, pat_views, view_field_pat, view_pat,
    SrcFieldPat, SrcPat,
};
use crate::diag::Reporter;
use crate::engine::helpers::{lower_plain_lit_exec, make_unsupported_pattern_diag};
use crate::engine::tys::lower_path;
use crate::lowering;
use crate::target::{
    lemma_tgt_field_pat_views, lemma_tgt_pat_views, tgt_field_pat_views, tgt_pat_views,
    view_tgt_field_pat, view_tgt_pat, TgtFieldPat, TgtPat,
};

verus! {

broadcast use
    vstd::std_specs::vec::group_vec_axioms,
    vstd::string::group_string_axioms,
    lemma_pat_views,
    lemma_field_pat_views,
    lemma_tgt_pat_views,
    lemma_tgt_field_pat_views;

/// Lower one pattern.  A kind with no policy yields a wildcard
/// placeholder beside its diagnostic.
#[verifier::loop_isolation(false)]
pub fn lower_pat(p: &SrcPat, cx: &mut Reporter) -> (r: TgtPat)
    requires
        old(cx).wf(),
    ensures
        r@ == lowering::lower_pat(p@),
        final(cx)@ == old(cx)@ + lowering::pat_diags(p@),
        final(cx).wf(),
    decreases *p,
{
    let r = match p {
        SrcPat::Ident { by_ref, mutable, name, sub, span } => {
            let s2 = match sub {
                Some(q) => Some(Box::new(lower_pat(q, cx))),
                None => None,
            };
            TgtPat::Ident { by_ref: *by_ref, mutable: *mutable, name: name.clone(), sub: s2 }
        },
        SrcPat::Wild { span } => TgtPat::Wild,
        SrcPat::Record { path, fields, has_rest, span } => {
            let p2 = lower_path(path);
            let f2 = lower_field_pat_list(fields, cx);
            TgtPat::Record { path: p2, fields: f2, has_rest: *has_rest }
        },
        SrcPat::TupleStruct { path, elems, span } => {
            let p2 = lower_path(path);
            let e2 = lower_pat_list(elems, cx);
            TgtPat::TupleStruct { path: p2, elems: e2 }
        },
        SrcPat::Tuple { elems, span } => TgtPat::Tuple { elems: lower_pat_list(elems, cx) },
        SrcPat::Or { alts, span } => TgtPat::Or { alts: lower_pat_list(alts, cx) },
        SrcPat::Path { path, span } => TgtPat::Path { path: lower_path(path) },
        SrcPat::Range { lo, hi, span } => {
            let l2 = match lo {
                Some(l) => Some(lower_plain_lit_exec(l)),
                None => None,
            };
            let h2 = match hi {
                Some(l) => Some(lower_plain_lit_exec(l)),
                None => None,
            };
            TgtPat::Range { lo: l2, hi: h2 }
        },
        SrcPat::Slice { elems, span } => TgtPat::Slice { elems: lower_pat_list(elems, cx) },
        SrcPat::Rest { span } => TgtPat::Rest,
        SrcPat::Paren { inner, span } => {
            let i2 = lower_pat(inner, cx);
            TgtPat::Paren { inner: Box::new(i2) }
        },
        SrcPat::Lit { lit, span } => {
            cx.report(make_unsupported_pattern_diag(*span));
            TgtPat::Wild
        },
        SrcPat::Boxed { span } => {
            cx.report(make_unsupported_pattern_diag(*span));
            TgtPat::Wild
        },
        SrcPat::Ref { span } => {
            cx.report(make_unsupported_pattern_diag(*span));
            TgtPat::Wild
        },
        SrcPat::Macro { span } => {
            cx.report(make_unsupported_pattern_diag(*span));
            TgtPat::Wild
        },
        SrcPat::ConstBlock { span } => {
            cx.report(make_unsupported_pattern_diag(*span));
            TgtPat::Wild
        },
    };
    proof {
        assert(r@ =~= lowering::lower_pat(p@));
        assert(cx@ =~= old(cx)@ + lowering::pat_diags(p@));
    }
    r
}

/// Lower a pattern list, in order.
#[verifier::loop_isolation(false)]
fn lower_pat_list(ps: &Vec<SrcPat>, cx: &mut Reporter) -> (r: Vec<TgtPat>)
    requires
        old(cx).wf(),
    ensures
        tgt_pat_views(r@, r@.len() as int) == lowering::lower_pats(
            pat_views(ps@, ps@.len() as int),
            ps@.len() as int,
        ),
        final(cx)@ == old(cx)@ + lowering::pats_diags(
            pat_views(ps@, ps@.len() as int),
            ps@.len() as int,
        ),
        final(cx).wf(),
    decreases *ps,
{
    let ghost diags0 = cx@;
    let mut out: Vec<TgtPat> = Vec::new();
    let mut j: usize = 0;
    while j < ps.len()
        invariant
            j <= ps.len(),
            cx.wf(),
            tgt_pat_views(out@, out@.len() as int) =~= lowering::lower_pats(
                pat_views(ps@, ps@.len() as int),
                j as int,
            ),
            cx@ == diags0 + lowering::pats_diags(pat_views(ps@, ps@.len() as int), j as int),
        decreases ps.len() - j,
    {
        proof {
            assert(decreases_to!(*ps => ps@[j as int]));
        }
        let p2 = lower_pat(&ps[j], cx);
        out.push(p2);
        j = j + 1;
    }
    proof {
        assert(cx@ =~= old(cx)@ + lowering::pats_diags(
            pat_views(ps@, ps@.len() as int),
            ps@.len() as int,
        ));
    }
    out
}

/// Lower the named fields of a record pattern, in order.
#[verifier::loop_isolation(false)]
fn lower_field_pat_list(fs: &Vec<SrcFieldPat>, cx: &mut Reporter) -> (r: Vec<TgtFieldPat>)
    requires
        old(cx).wf(),
    ensures
        tgt_field_pat_views(r@, r@.len() as int) == lowering::lower_field_pats(
            field_pat_views(fs@, fs@.len() as int),
            fs@.len() as int,
        ),
        final(cx)@ == old(cx)@ + lowering::field_pats_diags(
            field_pat_views(fs@, fs@.len() as int),
            fs@.len() as int,
        ),
        final(cx).wf(),
    decreases *fs,
{
    let ghost diags0 = cx@;
    let mut out: Vec<TgtFieldPat> = Vec::new();
    let mut j: usize = 0;
    while j < fs.len()
        invariant
            j <= fs.len(),
            cx.wf(),
            tgt_field_pat_views(out@, out@.len() as int) =~= lowering::lower_field_pats(
                field_pat_views(fs@, fs@.len() as int),
                j as int,
            ),
            cx@ == diags0 + lowering::field_pats_diags(
                field_pat_views(fs@, fs@.len() as int),
                j as int,
            ),
        decreases fs.len() - j,
    {
        proof {
            assert(decreases_to!(*fs => fs@[j as int]));
        }
        let p2 = lower_pat(&fs[j].pat, cx);
        let f2 = TgtFieldPat { name: fs[j].name.clone(), pat: p2 };
        let ghost prev = out@;
        let ghost fviews = field_pat_views(fs@, fs@.len() as int);
        proof {
            assert(fviews[j as int] == view_field_pat(fs@[j as int]));
            assert(view_tgt_field_pat(f2) == lowering::lower_field_pat(fviews[j as int]));
        }
        out.push(f2);
        proof {
            assert(tgt_field_pat_views(out@, out@.len() as int) =~= tgt_field_pat_views(
                prev,
                prev.len() as int,
            ).push(view_tgt_field_pat(f2)));
        }
        j = j + 1;
    }
    proof {
        assert(cx@ =~= old(cx)@ + lowering::field_pats_diags(
            field_pat_views(fs@, fs@.len() as int),
            fs@.len() as int,
        ));
    }
    out
}

} // verus!
