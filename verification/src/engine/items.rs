//! Lowering of declarations and of whole compilation units.

use vstd::prelude::*;

use crate::ast::{
    field_views, item_views, lemma_field_views, lemma_item_views, lemma_param_views,
    lemma_variant_views, param_views, variant_views, view_field, view_item, view_param,
    view_struct_kind, view_variant, SrcField, SrcFile, SrcItem, SrcParam, SrcStructKind,
    SrcVariant,
};
use crate::diag::Reporter;
use crate::engine::helpers::{
    clone_attrs, clone_opt_string, make_derive_clone_copy_attr, make_missing_body_diag,
    make_no_std_attr, make_unsupported_construct_diag,
};
use crate::engine::exprs::{lower_block, lower_expr};
use crate::engine::pats::lower_pat;
use crate::engine::tys::{lower_ty, lower_vis};
use crate::lowering;
use crate::ast::Attr;
use crate::target::{
    lemma_tgt_field_views, lemma_tgt_item_views, lemma_tgt_param_views, lemma_tgt_variant_views,
    tgt_field_views, tgt_item_views, tgt_param_views, tgt_variant_views, view_tgt_field,
    view_tgt_item, view_tgt_param, view_tgt_struct_kind, view_tgt_variant, TgtField, TgtFile,
    TgtItem, TgtParam, TgtStructKind, TgtVariant,
};

verus! {

broadcast use
    vstd::std_specs::vec::group_vec_axioms,
    vstd::string::group_string_axioms,
    lemma_param_views,
    lemma_field_views,
    lemma_variant_views,
    lemma_item_views,
    lemma_tgt_param_views,
    lemma_tgt_field_views,
    lemma_tgt_variant_views,
    lemma_tgt_item_views;

/// Lower a parameter list, in order.
#[verifier::loop_isolation(false)]
#[verifier::rlimit(100)]
fn lower_param_list(ps: &Vec<SrcParam>, cx: &mut Reporter) -> (r: Vec<TgtParam>)
    requires
        old(cx).wf(),
    ensures
        tgt_param_views(r@, r@.len() as int) == lowering::lower_params(
            param_views(ps@, ps@.len() as int),
            ps@.len() as int,
        ),
        final(cx)@ == old(cx)@ + lowering::params_diags(
            param_views(ps@, ps@.len() as int),
            ps@.len() as int,
        ),
        final(cx).wf(),
    decreases *ps,
{
    let ghost diags0 = cx@;
    let mut out: Vec<TgtParam> = Vec::new();
    let mut j: usize = 0;
    while j < ps.len()
        invariant
            j <= ps.len(),
            cx.wf(),
            tgt_param_views(out@, out@.len() as int) =~= lowering::lower_params(
                param_views(ps@, ps@.len() as int),
                j as int,
            ),
            cx@ == diags0 + lowering::params_diags(param_views(ps@, ps@.len() as int), j as int),
        decreases ps.len() - j,
    {
        proof {
            assert(decreases_to!(*ps => ps@[j as int]));
        }
        let p2 = lower_pat(&ps[j].pat, cx);
        let t2 = lower_ty(&ps[j].ty, cx);
        let x = TgtParam { pat: p2, ty: t2 };
        let ghost prev = out@;
        let ghost pviews = param_views(ps@, ps@.len() as int);
        proof {
            assert(pviews[j as int] == view_param(ps@[j as int]));
            assert(view_tgt_param(x) == lowering::lower_param(pviews[j as int]));
        }
        out.push(x);
        proof {
            assert(tgt_param_views(out@, out@.len() as int) =~= tgt_param_views(
                prev,
                prev.len() as int,
            ).push(view_tgt_param(x)));
            assert(lowering::params_diags(pviews, j as int + 1) =~= lowering::params_diags(
                pviews,
                j as int,
            ) + lowering::param_diags(pviews[j as int]));
            assert(cx@ =~= diags0 + lowering::params_diags(pviews, j as int + 1));
        }
        j = j + 1;
    }
    proof {
        assert(cx@ =~= old(cx)@ + lowering::params_diags(
            param_views(ps@, ps@.len() as int),
            ps@.len() as int,
        ));
    }
    out
}

/// Lower a field list, in order.  Each field's visibility defaults to
/// public on its own.
#[verifier::loop_isolation(false)]
#[verifier::rlimit(100)]
fn lower_field_list(fs: &Vec<SrcField>, cx: &mut Reporter) -> (r: Vec<TgtField>)
    requires
        old(cx).wf(),
    ensures
        tgt_field_views(r@, r@.len() as int) == lowering::lower_fields(
            field_views(fs@, fs@.len() as int),
            fs@.len() as int,
        ),
        final(cx)@ == old(cx)@ + lowering::fields_diags(
            field_views(fs@, fs@.len() as int),
            fs@.len() as int,
        ),
        final(cx).wf(),
    decreases *fs,
{
    let ghost diags0 = cx@;
    let mut out: Vec<TgtField> = Vec::new();
    let mut j: usize = 0;
    while j < fs.len()
        invariant
            j <= fs.len(),
            cx.wf(),
            tgt_field_views(out@, out@.len() as int) =~= lowering::lower_fields(
                field_views(fs@, fs@.len() as int),
                j as int,
            ),
            cx@ == diags0 + lowering::fields_diags(field_views(fs@, fs@.len() as int), j as int),
        decreases fs.len() - j,
    {
        proof {
            assert(decreases_to!(*fs => fs@[j as int]));
        }
        let n2 = clone_opt_string(&fs[j].name);
        let v2 = lower_vis(&fs[j].vis, cx);
        let t2 = lower_ty(&fs[j].ty, cx);
        let x = TgtField { name: n2, vis: v2, ty: t2 };
        let ghost prev = out@;
        let ghost fviews = field_views(fs@, fs@.len() as int);
        proof {
            assert(fviews[j as int] == view_field(fs@[j as int]));
            assert(view_tgt_field(x) == lowering::lower_field(fviews[j as int]));
        }
        out.push(x);
        proof {
            assert(tgt_field_views(out@, out@.len() as int) =~= tgt_field_views(
                prev,
                prev.len() as int,
            ).push(view_tgt_field(x)));
            assert(lowering::fields_diags(fviews, j as int + 1) =~= lowering::fields_diags(
                fviews,
                j as int,
            ) + lowering::field_diags(fviews[j as int]));
            assert(cx@ =~= diags0 + lowering::fields_diags(fviews, j as int + 1));
        }
        j = j + 1;
    }
    proof {
        assert(cx@ =~= old(cx)@ + lowering::fields_diags(
            field_views(fs@, fs@.len() as int),
            fs@.len() as int,
        ));
    }
    out
}

/// Lower the field list of a struct or enum variant.
fn lower_struct_kind(k: &SrcStructKind, cx: &mut Reporter) -> (r: TgtStructKind)
    requires
        old(cx).wf(),
    ensures
        r@ == lowering::lower_struct_kind(view_struct_kind(*k)),
        final(cx)@ == old(cx)@ + lowering::struct_kind_diags(view_struct_kind(*k)),
        final(cx).wf(),
    decreases *k,
{
    let r = match k {
        SrcStructKind::Record(fs) => TgtStructKind::Record(lower_field_list(fs, cx)),
        SrcStructKind::Tuple(fs) => TgtStructKind::Tuple(lower_field_list(fs, cx)),
        SrcStructKind::Unit => TgtStructKind::Unit,
    };
    proof {
        assert(r@ =~= lowering::lower_struct_kind(view_struct_kind(*k)));
        assert(cx@ =~= old(cx)@ + lowering::struct_kind_diags(view_struct_kind(*k)));
    }
    r
}

/// Lower a variant list, in order.
#[verifier::loop_isolation(false)]
#[verifier::rlimit(50)]
fn lower_variant_list(vs: &Vec<SrcVariant>, cx: &mut Reporter) -> (r: Vec<TgtVariant>)
    requires
        old(cx).wf(),
    ensures
        tgt_variant_views(r@, r@.len() as int) == lowering::lower_variants(
            variant_views(vs@, vs@.len() as int),
            vs@.len() as int,
        ),
        final(cx)@ == old(cx)@ + lowering::variants_diags(
            variant_views(vs@, vs@.len() as int),
            vs@.len() as int,
        ),
        final(cx).wf(),
    decreases *vs,
{
    let ghost diags0 = cx@;
    let mut out: Vec<TgtVariant> = Vec::new();
    let mut j: usize = 0;
    while j < vs.len()
        invariant
            j <= vs.len(),
            cx.wf(),
            tgt_variant_views(out@, out@.len() as int) =~= lowering::lower_variants(
                variant_views(vs@, vs@.len() as int),
                j as int,
            ),
            cx@ == diags0 + lowering::variants_diags(
                variant_views(vs@, vs@.len() as int),
                j as int,
            ),
        decreases vs.len() - j,
    {
        proof {
            assert(decreases_to!(*vs => vs@[j as int]));
        }
        let k2 = lower_struct_kind(&vs[j].kind, cx);
        let x = TgtVariant { name: vs[j].name.clone(), kind: k2 };
        let ghost prev = out@;
        let ghost vviews = variant_views(vs@, vs@.len() as int);
        proof {
            assert(vviews[j as int] == view_variant(vs@[j as int]));
            assert(view_tgt_variant(x) == lowering::lower_variant(vviews[j as int]));
        }
        out.push(x);
        proof {
            assert(tgt_variant_views(out@, out@.len() as int) =~= tgt_variant_views(
                prev,
                prev.len() as int,
            ).push(view_tgt_variant(x)));
        }
        j = j + 1;
    }
    proof {
        assert(cx@ =~= old(cx)@ + lowering::variants_diags(
            variant_views(vs@, vs@.len() as int),
            vs@.len() as int,
        ));
    }
    out
}

/// Lower a function declaration.  Without a body it is dropped with a
/// fatal diagnostic; otherwise it is emitted with the explicit unsafety
/// marker.
#[verifier::rlimit(100)]
fn lower_fn_item(i: &SrcItem, cx: &mut Reporter) -> (r: Option<TgtItem>)
    requires
        old(cx).wf(),
        i is Fn,
    ensures
        (r is Some) == (lowering::lower_item(i@) is Some),
        (r matches Some(ti) ==> lowering::lower_item(i@) == Some(ti@)),
        final(cx)@ == old(cx)@ + lowering::item_diags(i@),
        final(cx).wf(),
    decreases *i, 0int,
{
    match i {
        SrcItem::Fn { name, vis, is_const, is_async, abi, params, variadic, ret, body, span } => {
            match body {
                None => {
                    cx.report(make_missing_body_diag(*span));
                    None
                },
                Some(b) => {
                    let v2 = lower_vis(vis, cx);
                    let ps2 = lower_param_list(params, cx);
                    let ret2 = match ret {
                        Some(t) => Some(Box::new(lower_ty(t, cx))),
                        None => None,
                    };
                    let b2 = lower_block(b, cx);
                    let r = Some(
                        TgtItem::Fn {
                            name: name.clone(),
                            vis: v2,
                            unsafety: true,
                            is_const: *is_const,
                            is_async: *is_async,
                            abi: clone_opt_string(abi),
                            params: ps2,
                            variadic: *variadic,
                            ret: ret2,
                            body: b2,
                        },
                    );
                    proof {
                        assert(cx@ =~= old(cx)@ + lowering::item_diags(i@));
                    }
                    r
                },
            }
        },
        _ => None,  // ruled out by the precondition
    }
}

/// Lower a struct declaration: the `Clone`/`Copy` derive is appended
/// after the source's own attributes.
#[verifier::rlimit(100)]
fn lower_struct_item(i: &SrcItem, cx: &mut Reporter) -> (r: Option<TgtItem>)
    requires
        old(cx).wf(),
        i is Struct,
    ensures
        (r is Some) == (lowering::lower_item(i@) is Some),
        (r matches Some(ti) ==> lowering::lower_item(i@) == Some(ti@)),
        final(cx)@ == old(cx)@ + lowering::item_diags(i@),
        final(cx).wf(),
    decreases *i, 0int,
{
    match i {
        SrcItem::Struct { name, vis, attrs, kind, span } => {
            let v2 = lower_vis(vis, cx);
            let k2 = lower_struct_kind(kind, cx);
            let mut a2 = clone_attrs(attrs);
            a2.push(make_derive_clone_copy_attr());
            proof {
                assert(a2.deep_view() =~= attrs.deep_view().push(
                    lowering::derive_clone_copy_attr(),
                ));
                assert(cx@ =~= old(cx)@ + lowering::item_diags(i@));
            }
            Some(TgtItem::Struct { name: name.clone(), vis: v2, attrs: a2, kind: k2 })
        },
        _ => None,  // ruled out by the precondition
    }
}

/// Lower an enum declaration: the `Clone`/`Copy` derive is appended
/// after the source's own attributes.
#[verifier::rlimit(100)]
fn lower_enum_item(i: &SrcItem, cx: &mut Reporter) -> (r: Option<TgtItem>)
    requires
        old(cx).wf(),
        i is Enum,
    ensures
        (r is Some) == (lowering::lower_item(i@) is Some),
        (r matches Some(ti) ==> lowering::lower_item(i@) == Some(ti@)),
        final(cx)@ == old(cx)@ + lowering::item_diags(i@),
        final(cx).wf(),
    decreases *i, 0int,
{
    match i {
        SrcItem::Enum { name, vis, attrs, variants, span } => {
            let v2 = lower_vis(vis, cx);
            let vars2 = lower_variant_list(variants, cx);
            let mut a2 = clone_attrs(attrs);
            a2.push(make_derive_clone_copy_attr());
            proof {
                assert(a2.deep_view() =~= attrs.deep_view().push(
                    lowering::derive_clone_copy_attr(),
                ));
                assert(cx@ =~= old(cx)@ + lowering::item_diags(i@));
            }
            Some(TgtItem::Enum { name: name.clone(), vis: v2, attrs: a2, variants: vars2 })
        },
        _ => None,  // ruled out by the precondition
    }
}

/// Lower a constant.  Without an initializer it is dropped with a fatal
/// diagnostic.
#[verifier::rlimit(100)]
fn lower_const_item(i: &SrcItem, cx: &mut Reporter) -> (r: Option<TgtItem>)
    requires
        old(cx).wf(),
        i is Const,
    ensures
        (r is Some) == (lowering::lower_item(i@) is Some),
        (r matches Some(ti) ==> lowering::lower_item(i@) == Some(ti@)),
        final(cx)@ == old(cx)@ + lowering::item_diags(i@),
        final(cx).wf(),
    decreases *i, 0int,
{
    match i {
        SrcItem::Const { name, vis, ty, body, span } => {
            match body {
                None => {
                    cx.report(make_missing_body_diag(*span));
                    None
                },
                Some(e) => {
                    let v2 = lower_vis(vis, cx);
                    let t2 = lower_ty(ty, cx);
                    let e2 = lower_expr(e, cx);
                    proof {
                        assert(cx@ =~= old(cx)@ + lowering::item_diags(i@));
                    }
                    Some(
                        TgtItem::Const {
                            name: name.clone(),
                            vis: v2,
                            ty: Box::new(t2),
                            expr: Box::new(e2),
                        },
                    )
                },
            }
        },
        _ => None,  // ruled out by the precondition
    }
}

/// Lower a static.  Without an initializer it is dropped with a fatal
/// diagnostic.
#[verifier::rlimit(100)]
fn lower_static_item(i: &SrcItem, cx: &mut Reporter) -> (r: Option<TgtItem>)
    requires
        old(cx).wf(),
        i is Static,
    ensures
        (r is Some) == (lowering::lower_item(i@) is Some),
        (r matches Some(ti) ==> lowering::lower_item(i@) == Some(ti@)),
        final(cx)@ == old(cx)@ + lowering::item_diags(i@),
        final(cx).wf(),
    decreases *i, 0int,
{
    match i {
        SrcItem::Static { name, vis, mutable, ty, body, span } => {
            match body {
                None => {
                    cx.report(make_missing_body_diag(*span));
                    None
                },
                Some(e) => {
                    let v2 = lower_vis(vis, cx);
                    let t2 = lower_ty(ty, cx);
                    let e2 = lower_expr(e, cx);
                    proof {
                        assert(cx@ =~= old(cx)@ + lowering::item_diags(i@));
                    }
                    Some(
                        TgtItem::Static {
                            name: name.clone(),
                            vis: v2,
                            mutable: *mutable,
                            ty: Box::new(t2),
                            expr: Box::new(e2),
                        },
                    )
                },
            }
        },
        _ => None,  // ruled out by the precondition
    }
}

/// Lower one declaration.
///
/// A function is always emitted with the explicit unsafety marker; a
/// struct or enum gets the `Clone`/`Copy` derive appended after its own
/// attributes; a declaration that needs a body and has none is dropped
/// with a fatal diagnostic; kinds with no policy are dropped, each with
/// a diagnostic.  `None` always comes with at least one diagnostic.
pub fn lower_item(i: &SrcItem, cx: &mut Reporter) -> (r: Option<TgtItem>)
    requires
        old(cx).wf(),
    ensures
        (r is Some) == (lowering::lower_item(i@) is Some),
        (r matches Some(ti) ==> lowering::lower_item(i@) == Some(ti@)),
        final(cx)@ == old(cx)@ + lowering::item_diags(i@),
        final(cx).wf(),
    decreases *i, 1int,
{
    match i {
        SrcItem::Fn { .. } => lower_fn_item(i, cx),
        SrcItem::Struct { .. } => lower_struct_item(i, cx),
        SrcItem::Enum { .. } => lower_enum_item(i, cx),
        SrcItem::Const { .. } => lower_const_item(i, cx),
        SrcItem::Static { .. } => lower_static_item(i, cx),
        SrcItem::Trait { span } => {
            cx.report(make_unsupported_construct_diag(*span));
            None
        },
        SrcItem::Impl { span } => {
            cx.report(make_unsupported_construct_diag(*span));
            None
        },
        SrcItem::Module { span } => {
            cx.report(make_unsupported_construct_diag(*span));
            None
        },
        SrcItem::TypeAlias { span } => {
            cx.report(make_unsupported_construct_diag(*span));
            None
        },
        SrcItem::MacroDef { span } => {
            cx.report(make_unsupported_construct_diag(*span));
            None
        },
        SrcItem::Use { span } => {
            cx.report(make_unsupported_construct_diag(*span));
            None
        },
        SrcItem::Union { span } => {
            cx.report(make_unsupported_construct_diag(*span));
            None
        },
    }
}

/// The driver: lower one whole compilation unit.
///
/// The target unit starts with the dialect's inner attribute; every
/// source item is visited in order; dropped ones leave only their
/// diagnostics behind.  The result and the reported diagnostics are
/// exactly the policy's `lower_file` and `file_diags`.
#[verifier::loop_isolation(false)]
pub fn lower_source_file(f: &SrcFile, cx: &mut Reporter) -> (r: TgtFile)
    requires
        old(cx).wf(),
    ensures
        r@ == lowering::lower_file(f@),
        final(cx)@ == old(cx)@ + lowering::file_diags(f@),
        final(cx).wf(),
{
    let ghost diags0 = cx@;
    let mut attrs: Vec<Attr> = Vec::new();
    attrs.push(make_no_std_attr());
    let mut items: Vec<TgtItem> = Vec::new();
    let mut j: usize = 0;
    while j < f.items.len()
        invariant
            j <= f.items.len(),
            cx.wf(),
            attrs.deep_view() =~= seq![lowering::no_std_attr()],
            tgt_item_views(items@, items@.len() as int) =~= lowering::lower_items(
                item_views(f.items@, f.items@.len() as int),
                j as int,
            ),
            cx@ == diags0 + lowering::items_diags(
                item_views(f.items@, f.items@.len() as int),
                j as int,
            ),
        decreases f.items.len() - j,
    {
        let i2 = lower_item(&f.items[j], cx);
        match i2 {
            Some(ti) => {
                items.push(ti);
            },
            None => {},
        }
        j = j + 1;
    }
    let r = TgtFile { attrs, items };
    proof {
        assert(r@.attrs =~= lowering::lower_file(f@).attrs);
        assert(r@.items =~= lowering::lower_file(f@).items);
        assert(cx@ =~= old(cx)@ + lowering::file_diags(f@));
    }
    r
}

} // verus!
