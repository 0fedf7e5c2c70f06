//! End-to-end tests of the lowering pass on concrete source trees.

use crust::ast::{
    Attr, BinOp, SrcBlock, SrcExpr, SrcField, SrcFile, SrcItem, SrcLit, SrcParam, SrcPat, SrcPath,
    SrcSeg, SrcStructKind, SrcTy, SrcVis, UnOp,
};
use crust::diag::{Category, Reporter, Severity, Span};
use crust::engine::lower_source_file;
use crust::target::{
    TgtBlock, TgtExpr, TgtField, TgtItem, TgtParam, TgtPat, TgtPath, TgtStmt, TgtStructKind,
    TgtTy, TgtVis,
};

fn sp(start: usize, end: usize) -> Span {
    Span { start, end }
}

fn named_ty(name: &str, start: usize, end: usize) -> SrcTy {
    SrcTy::Path {
        path: SrcPath { segments: vec![SrcSeg::Name(name.to_string())] },
        span: sp(start, end),
    }
}

fn tgt_named_ty(name: &str) -> TgtTy {
    TgtTy::Path { path: TgtPath { segments: vec![name.to_string()] } }
}

fn var_expr(name: &str, start: usize, end: usize) -> SrcExpr {
    SrcExpr::Path {
        path: SrcPath { segments: vec![SrcSeg::Name(name.to_string())] },
        span: sp(start, end),
    }
}

fn tgt_var_expr(name: &str) -> TgtExpr {
    TgtExpr::Path { path: TgtPath { segments: vec![name.to_string()] } }
}

fn no_std_attr() -> Attr {
    Attr { path: vec!["no_std".to_string()], args: String::new() }
}

fn derive_attr() -> Attr {
    Attr { path: vec!["derive".to_string()], args: "Clone, Copy".to_string() }
}

/// `fn add(a: i32, b: i32) -> i32 { a + b }` becomes the same function
/// marked unsafe and public, with zero diagnostics.
#[test]
fn scenario_add_function() {
    let file = SrcFile {
        items: vec![SrcItem::Fn {
            name: "add".to_string(),
            vis: None,
            is_const: false,
            is_async: false,
            abi: None,
            params: vec![
                SrcParam {
                    pat: SrcPat::Ident {
                        by_ref: false,
                        mutable: false,
                        name: "a".to_string(),
                        sub: None,
                        span: sp(7, 8),
                    },
                    ty: named_ty("i32", 10, 13),
                },
                SrcParam {
                    pat: SrcPat::Ident {
                        by_ref: false,
                        mutable: false,
                        name: "b".to_string(),
                        sub: None,
                        span: sp(15, 16),
                    },
                    ty: named_ty("i32", 18, 21),
                },
            ],
            variadic: false,
            ret: Some(Box::new(named_ty("i32", 26, 29))),
            body: Some(SrcBlock {
                stmts: vec![],
                tail: Some(Box::new(SrcExpr::Binary {
                    op: BinOp::Add,
                    lhs: Box::new(var_expr("a", 32, 33)),
                    rhs: Box::new(var_expr("b", 36, 37)),
                    span: sp(32, 37),
                })),
                span: sp(30, 39),
            }),
            span: sp(0, 39),
        }],
    };
    let mut cx = Reporter::new();
    let out = lower_source_file(&file, &mut cx);
    assert_eq!(cx.len(), 0);
    assert!(!cx.has_fatal());
    let expected = TgtItem::Fn {
        name: "add".to_string(),
        vis: TgtVis::Public,
        unsafety: true,
        is_const: false,
        is_async: false,
        abi: None,
        params: vec![
            TgtParam {
                pat: TgtPat::Ident {
                    by_ref: false,
                    mutable: false,
                    name: "a".to_string(),
                    sub: None,
                },
                ty: tgt_named_ty("i32"),
            },
            TgtParam {
                pat: TgtPat::Ident {
                    by_ref: false,
                    mutable: false,
                    name: "b".to_string(),
                    sub: None,
                },
                ty: tgt_named_ty("i32"),
            },
        ],
        variadic: false,
        ret: Some(Box::new(tgt_named_ty("i32"))),
        body: TgtBlock {
            stmts: vec![TgtStmt::Expr {
                expr: TgtExpr::Binary {
                    op: BinOp::Add,
                    lhs: Box::new(tgt_var_expr("a")),
                    rhs: Box::new(tgt_var_expr("b")),
                },
                semi: false,
            }],
        },
    };
    assert_eq!(out.attrs, vec![no_std_attr()]);
    assert_eq!(out.items, vec![expected]);
}

/// `fn bad(x: &i32) -> i32 { *x }` gets one "reference type used"
/// diagnostic at the reference's span; the parameter type becomes the
/// placeholder; the function is still emitted, unsafe.
#[test]
fn scenario_reference_parameter() {
    let ref_span = sp(10, 14);
    let file = SrcFile {
        items: vec![SrcItem::Fn {
            name: "bad".to_string(),
            vis: None,
            is_const: false,
            is_async: false,
            abi: None,
            params: vec![SrcParam {
                pat: SrcPat::Ident {
                    by_ref: false,
                    mutable: false,
                    name: "x".to_string(),
                    sub: None,
                    span: sp(7, 8),
                },
                ty: SrcTy::Ref {
                    mutable: false,
                    elem: Box::new(named_ty("i32", 11, 14)),
                    span: ref_span,
                },
            }],
            variadic: false,
            ret: Some(Box::new(named_ty("i32", 19, 22))),
            body: Some(SrcBlock {
                stmts: vec![],
                tail: Some(Box::new(SrcExpr::Unary {
                    op: UnOp::Deref,
                    inner: Box::new(var_expr("x", 26, 27)),
                    span: sp(25, 27),
                })),
                span: sp(23, 29),
            }),
            span: sp(0, 29),
        }],
    };
    let mut cx = Reporter::new();
    let out = lower_source_file(&file, &mut cx);
    assert_eq!(cx.len(), 1);
    let d = cx.get(0);
    assert_eq!(d.title, "reference type used");
    assert_eq!(d.span, ref_span);
    assert_eq!(d.label, "reference types are not allowed");
    assert_eq!(d.help.as_deref(), Some("try using pointers"));
    assert_eq!(d.severity, Severity::Error);
    assert_eq!(d.category, Category::RestrictionViolation);
    assert!(!cx.has_fatal());
    assert_eq!(out.items.len(), 1);
    match &out.items[0] {
        TgtItem::Fn { name, unsafety, params, body, .. } => {
            assert_eq!(name, "bad");
            assert!(*unsafety);
            assert_eq!(params[0].ty, TgtTy::Never);
            assert_eq!(
                body.stmts,
                vec![TgtStmt::Expr {
                    expr: TgtExpr::Unary {
                        op: UnOp::Deref,
                        inner: Box::new(tgt_var_expr("x")),
                    },
                    semi: false,
                }]
            );
        },
        other => panic!("expected a function, got {:?}", other),
    }
}

/// `struct Point { x: i32, y: i32 }` becomes a public struct with public
/// fields and the `Clone`/`Copy` derive appended.
#[test]
fn scenario_struct_point() {
    let file = SrcFile {
        items: vec![SrcItem::Struct {
            name: "Point".to_string(),
            vis: None,
            attrs: vec![],
            kind: SrcStructKind::Record(vec![
                SrcField {
                    name: Some("x".to_string()),
                    vis: None,
                    ty: named_ty("i32", 17, 20),
                },
                SrcField {
                    name: Some("y".to_string()),
                    vis: None,
                    ty: named_ty("i32", 25, 28),
                },
            ]),
            span: sp(0, 30),
        }],
    };
    let mut cx = Reporter::new();
    let out = lower_source_file(&file, &mut cx);
    assert_eq!(cx.len(), 0);
    let expected = TgtItem::Struct {
        name: "Point".to_string(),
        vis: TgtVis::Public,
        attrs: vec![derive_attr()],
        kind: TgtStructKind::Record(vec![
            TgtField {
                name: Some("x".to_string()),
                vis: TgtVis::Public,
                ty: tgt_named_ty("i32"),
            },
            TgtField {
                name: Some("y".to_string()),
                vis: TgtVis::Public,
                ty: tgt_named_ty("i32"),
            },
        ]),
    };
    assert_eq!(out.items, vec![expected]);
}

/// Lowering the same tree twice yields identical target trees and
/// identical diagnostics.
#[test]
fn lowering_is_deterministic() {
    let make = || SrcFile {
        items: vec![
            SrcItem::Trait { span: sp(0, 5) },
            SrcItem::Const {
                name: "N".to_string(),
                vis: Some(SrcVis::PubCrate),
                ty: Box::new(SrcTy::Ptr {
                    mutable: false,
                    elem: Box::new(SrcTy::Ref {
                        mutable: true,
                        elem: Box::new(named_ty("u8", 20, 22)),
                        span: sp(18, 22),
                    }),
                    span: sp(10, 22),
                }),
                body: Some(Box::new(SrcExpr::Lit {
                    lit: SrcLit::Int("7".to_string()),
                    span: sp(25, 26),
                })),
                span: sp(6, 27),
            },
        ],
    };
    let (a, b) = (make(), make());
    let mut cxa = Reporter::new();
    let mut cxb = Reporter::new();
    let outa = lower_source_file(&a, &mut cxa);
    let outb = lower_source_file(&b, &mut cxb);
    assert_eq!(outa, outb);
    assert_eq!(cxa.len(), cxb.len());
    for i in 0..cxa.len() {
        assert_eq!(cxa.get(i), cxb.get(i));
    }
}

/// `*const T` lowers to a pointer wrapping the lowered `T`.
#[test]
fn pointer_lowering_is_structural() {
    let t = SrcTy::Ptr {
        mutable: false,
        elem: Box::new(SrcTy::Tuple {
            elems: vec![named_ty("u8", 8, 10), SrcTy::Never { span: sp(12, 13) }],
            span: sp(7, 14),
        }),
        span: sp(0, 14),
    };
    let mut cx = Reporter::new();
    let out = crust::engine::lower_ty(&t, &mut cx);
    assert_eq!(cx.len(), 0);
    assert_eq!(
        out,
        TgtTy::Ptr {
            mutable: false,
            elem: Box::new(TgtTy::Tuple {
                elems: vec![tgt_named_ty("u8"), TgtTy::Never],
            }),
        }
    );
}

/// Each syntactic reference type yields exactly one diagnostic, and each
/// maximal rejected subtree exactly one `Never` placeholder.
#[test]
fn reference_diagnostics_count() {
    let t = SrcTy::Tuple {
        elems: vec![
            SrcTy::Ref {
                mutable: false,
                elem: Box::new(named_ty("i32", 2, 5)),
                span: sp(1, 5),
            },
            SrcTy::Ref {
                mutable: true,
                // A reference nested inside a rejected reference is still
                // diagnosed, though only the outer one leaves a node.
                elem: Box::new(SrcTy::Ref {
                    mutable: false,
                    elem: Box::new(named_ty("u8", 13, 15)),
                    span: sp(12, 15),
                }),
                span: sp(7, 15),
            },
        ],
        span: sp(0, 16),
    };
    let mut cx = Reporter::new();
    let out = crust::engine::lower_ty(&t, &mut cx);
    assert_eq!(cx.len(), 3);
    for i in 0..3 {
        assert_eq!(cx.get(i).title, "reference type used");
    }
    assert_eq!(out, TgtTy::Tuple { elems: vec![TgtTy::Never, TgtTy::Never] });
}

/// The visibility table: unspecified maps to public, the restricted
/// forms keep their paths.
#[test]
fn visibility_mapping() {
    let mut cx = Reporter::new();
    let public = crust::engine::lower_vis(&None, &mut cx);
    assert_eq!(public, TgtVis::Public);
    let explicit = crust::engine::lower_vis(&Some(SrcVis::Pub), &mut cx);
    assert_eq!(explicit, TgtVis::Public);
    let in_crate = crust::engine::lower_vis(&Some(SrcVis::PubCrate), &mut cx);
    assert_eq!(
        in_crate,
        TgtVis::Restricted { path: TgtPath { segments: vec!["crate".to_string()] } }
    );
    let in_super = crust::engine::lower_vis(&Some(SrcVis::PubSuper), &mut cx);
    assert_eq!(
        in_super,
        TgtVis::Restricted { path: TgtPath { segments: vec!["super".to_string()] } }
    );
    let in_self = crust::engine::lower_vis(&Some(SrcVis::PubSelf), &mut cx);
    assert_eq!(
        in_self,
        TgtVis::Restricted { path: TgtPath { segments: vec!["self".to_string()] } }
    );
    let in_path = crust::engine::lower_vis(
        &Some(SrcVis::PubIn {
            path: SrcPath {
                segments: vec![SrcSeg::Crate, SrcSeg::Name("inner".to_string())],
            },
            span: sp(0, 3),
        }),
        &mut cx,
    );
    assert_eq!(
        in_path,
        TgtVis::Restricted {
            path: TgtPath { segments: vec!["crate".to_string(), "inner".to_string()] },
        }
    );
    assert_eq!(cx.len(), 0);
    // An empty restriction path is a fatal structural error.
    let bad = crust::engine::lower_vis(
        &Some(SrcVis::PubIn { path: SrcPath { segments: vec![] }, span: sp(4, 9) }),
        &mut cx,
    );
    assert_eq!(bad, TgtVis::Public);
    assert_eq!(cx.len(), 1);
    assert_eq!(cx.get(0).category, Category::StructuralError);
    assert!(cx.has_fatal());
}

/// A bodiless constant is dropped with a fatal diagnostic; its siblings
/// are unaffected.
#[test]
fn missing_body_drops_item() {
    let file = SrcFile {
        items: vec![
            SrcItem::Const {
                name: "K".to_string(),
                vis: None,
                ty: Box::new(named_ty("u8", 9, 11)),
                body: None,
                span: sp(0, 12),
            },
            SrcItem::Static {
                name: "S".to_string(),
                vis: None,
                mutable: true,
                ty: Box::new(named_ty("u8", 24, 26)),
                body: Some(Box::new(SrcExpr::Lit {
                    lit: SrcLit::Int("0".to_string()),
                    span: sp(29, 30),
                })),
                span: sp(13, 31),
            },
        ],
    };
    let mut cx = Reporter::new();
    let out = lower_source_file(&file, &mut cx);
    assert_eq!(cx.len(), 1);
    assert_eq!(cx.get(0).title, "missing body");
    assert_eq!(cx.get(0).category, Category::StructuralError);
    assert_eq!(cx.get(0).span, sp(0, 12));
    assert!(cx.has_fatal());
    assert_eq!(out.items.len(), 1);
    match &out.items[0] {
        TgtItem::Static { name, mutable, .. } => {
            assert_eq!(name, "S");
            assert!(*mutable);
        },
        other => panic!("expected the static to survive, got {:?}", other),
    }
}

/// An item kind with no policy is dropped with an "unsupported
/// construct" diagnostic, never silently.
#[test]
fn unsupported_item_is_diagnosed() {
    let file = SrcFile {
        items: vec![SrcItem::Impl { span: sp(3, 20) }, SrcItem::Use { span: sp(21, 30) }],
    };
    let mut cx = Reporter::new();
    let out = lower_source_file(&file, &mut cx);
    assert_eq!(out.items.len(), 0);
    assert_eq!(cx.len(), 2);
    assert_eq!(cx.get(0).title, "unsupported construct");
    assert_eq!(cx.get(0).span, sp(3, 20));
    assert_eq!(cx.get(1).span, sp(21, 30));
    assert_eq!(cx.get(0).category, Category::UnsupportedConstruct);
}

/// A function-pointer type is kept with reduced fidelity: a warning, an
/// inferred type in its place.
#[test]
fn partially_supported_type_warns() {
    let mut cx = Reporter::new();
    let out = crust::engine::lower_ty(&SrcTy::FnPtr { span: sp(2, 12) }, &mut cx);
    assert_eq!(out, TgtTy::Infer);
    assert_eq!(cx.len(), 1);
    assert_eq!(cx.get(0).severity, Severity::Warning);
    assert_eq!(cx.get(0).title, "partially supported type");
    assert!(!cx.has_fatal());
}

/// A macro in type position is unsupported: a diagnostic and the `Never`
/// placeholder.
#[test]
fn macro_type_is_rejected() {
    let mut cx = Reporter::new();
    let out = crust::engine::lower_ty(&SrcTy::Macro { span: sp(0, 9) }, &mut cx);
    assert_eq!(out, TgtTy::Never);
    assert_eq!(cx.len(), 1);
    assert_eq!(cx.get(0).title, "unsupported construct");
}
