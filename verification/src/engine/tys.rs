//! Lowering of paths, visibilities and types.

use vstd::prelude::*;

use crate::ast::{
    lemma_ty_views, ty_views, view_path, view_seg, view_ty, SrcPath, SrcSeg, SrcTy, SrcVis,
};
use crate::diag::Reporter;
use crate::engine::helpers::{
    make_bad_vis_path_diag, make_partial_type_diag, make_ref_type_diag,
    make_unsupported_construct_diag,
};
use crate::lowering;
use crate::target::{lemma_tgt_ty_views, tgt_ty_views, view_tgt_ty, TgtPath, TgtTy, TgtVis};

verus! {

broadcast use
    vstd::std_specs::vec::group_vec_axioms,
    vstd::string::group_string_axioms,
    lemma_ty_views,
    lemma_tgt_ty_views;

/// Lower one path segment to its identifier.
fn lower_seg(s: &SrcSeg) -> (r: String)
    ensures
        r@ == lowering::lower_seg(s@),
{
    match s {
        SrcSeg::Name(n) => n.clone(),
        SrcSeg::SelfType => "Self".to_string(),
        SrcSeg::SelfValue => "self".to_string(),
        SrcSeg::Super => "super".to_string(),
        SrcSeg::Crate => "crate".to_string(),
    }
}

/// Lower a path: every segment becomes a plain identifier.
pub fn lower_path(p: &SrcPath) -> (r: TgtPath)
    ensures
        r@ == lowering::lower_path(p@),
{
    let mut segments: Vec<String> = Vec::new();
    let mut j: usize = 0;
    while j < p.segments.len()
        invariant
            j <= p.segments.len(),
            segments@.len() == j,
            forall|i: int|
                0 <= i < j ==> segments@[i]@ == lowering::lower_seg(view_seg(p.segments@[i])),
        decreases p.segments.len() - j,
    {
        segments.push(lower_seg(&p.segments[j]));
        j = j + 1;
    }
    let r = TgtPath { segments };
    proof {
        assert(r@.segments =~= lowering::lower_path(p@).segments);
    }
    r
}

/// Lower a visibility.  Nothing stated becomes public; the restricted
/// forms collapse to a restriction carrying the path; a `pub(in ...)`
/// with an empty path gets a fatal diagnostic and falls back to public.
pub fn lower_vis(v: &Option<SrcVis>, cx: &mut Reporter) -> (r: TgtVis)
    requires
        old(cx).wf(),
    ensures
        r@ == lowering::lower_vis(v.deep_view()),
        final(cx)@ == old(cx)@ + lowering::vis_diags(v.deep_view()),
        final(cx).wf(),
{
    let r = match v {
        None => TgtVis::Public,
        Some(SrcVis::Pub) => TgtVis::Public,
        Some(SrcVis::PubCrate) => {
            let mut segments: Vec<String> = Vec::new();
            segments.push("crate".to_string());
            TgtVis::Restricted { path: TgtPath { segments } }
        },
        Some(SrcVis::PubSuper) => {
            let mut segments: Vec<String> = Vec::new();
            segments.push("super".to_string());
            TgtVis::Restricted { path: TgtPath { segments } }
        },
        Some(SrcVis::PubSelf) => {
            let mut segments: Vec<String> = Vec::new();
            segments.push("self".to_string());
            TgtVis::Restricted { path: TgtPath { segments } }
        },
        Some(SrcVis::PubIn { path, span }) => {
            if path.segments.len() > 0 {
                TgtVis::Restricted { path: lower_path(path) }
            } else {
                cx.report(make_bad_vis_path_diag(*span));
                TgtVis::Public
            }
        },
    };
    proof {
        assert(r@ =~= lowering::lower_vis(v.deep_view()));
        assert(cx@ =~= old(cx)@ + lowering::vis_diags(v.deep_view()));
    }
    r
}

/// Lower one type.
///
/// A reference type is rejected: its diagnostic is reported, its subtree
/// is still walked for further diagnostics, and a `Never` placeholder
/// stands in for the whole of it.
#[verifier::loop_isolation(false)]
pub fn lower_ty(t: &SrcTy, cx: &mut Reporter) -> (r: TgtTy)
    requires
        old(cx).wf(),
    ensures
        r@ == lowering::lower_ty(t@),
        final(cx)@ == old(cx)@ + lowering::ty_diags(t@),
        final(cx).wf(),
    decreases *t,
{
    let ghost diags0 = cx@;
    let r = match t {
        SrcTy::Ptr { mutable, elem, span } => {
            let e2 = lower_ty(elem, cx);
            TgtTy::Ptr { mutable: *mutable, elem: Box::new(e2) }
        },
        SrcTy::Ref { mutable, elem, span } => {
            cx.report(make_ref_type_diag(*span));
            let e2 = lower_ty(elem, cx);
            TgtTy::Never
        },
        SrcTy::Array { elem, len, span } => {
            let e2 = lower_ty(elem, cx);
            let l2 = crate::engine::exprs::lower_expr(len, cx);
            TgtTy::Array { elem: Box::new(e2), len: Box::new(l2) }
        },
        SrcTy::Slice { elem, span } => {
            let e2 = lower_ty(elem, cx);
            TgtTy::Slice { elem: Box::new(e2) }
        },
        SrcTy::Tuple { elems, span } => {
            let mut out: Vec<TgtTy> = Vec::new();
            let mut j: usize = 0;
            while j < elems.len()
                invariant
                    j <= elems.len(),
                    cx.wf(),
                    tgt_ty_views(out@, out@.len() as int) =~= lowering::lower_tys(
                        ty_views(elems@, elems@.len() as int),
                        j as int,
                    ),
                    cx@ == diags0 + lowering::tys_diags(
                        ty_views(elems@, elems@.len() as int),
                        j as int,
                    ),
                decreases elems.len() - j,
            {
                proof {
                    assert(decreases_to!(*t => elems@[j as int]));
                }
                let e2 = lower_ty(&elems[j], cx);
                out.push(e2);
                j = j + 1;
            }
            TgtTy::Tuple { elems: out }
        },
        SrcTy::Path { path, span } => TgtTy::Path { path: lower_path(path) },
        SrcTy::Never { span } => TgtTy::Never,
        SrcTy::Infer { span } => TgtTy::Infer,
        SrcTy::Paren { inner, span } => lower_ty(inner, cx),
        SrcTy::FnPtr { span } => {
            cx.report(make_partial_type_diag(*span));
            TgtTy::Infer
        },
        SrcTy::TraitObject { span } => {
            cx.report(make_partial_type_diag(*span));
            TgtTy::Infer
        },
        SrcTy::ImplTrait { span } => {
            cx.report(make_partial_type_diag(*span));
            TgtTy::Infer
        },
        SrcTy::Macro { span } => {
            cx.report(make_unsupported_construct_diag(*span));
            TgtTy::Never
        },
        SrcTy::For { span } => {
            cx.report(make_unsupported_construct_diag(*span));
            TgtTy::Never
        },
    };
    proof {
        assert(r@ =~= lowering::lower_ty(t@));
        assert(cx@ =~= old(cx)@ + lowering::ty_diags(t@));
    }
    r
}

} // verus!
