//! Tests of the expression rewrites, the statement forms and the
//! command-line diagnostics, including the rendering.

use crust::ast::{
    SrcBlock, SrcExpr, SrcLit, SrcPat, SrcPath, SrcSeg, SrcStmt, SrcTy,
};
use crust::cli::{diagnose_missing_argument, diagnose_unreadable_file};
use crust::diag::{Category, Diagnostic, Reporter, Severity, Span};
use crust::engine::{lower_block, lower_expr, lower_stmt};
use crust::render::render_diagnostic;
use crust::target::{TgtBlock, TgtExpr, TgtLetInit, TgtLit, TgtPat, TgtPath, TgtStmt};

fn sp(start: usize, end: usize) -> Span {
    Span { start, end }
}

fn var_expr(name: &str, start: usize, end: usize) -> SrcExpr {
    SrcExpr::Path {
        path: SrcPath { segments: vec![SrcSeg::Name(name.to_string())] },
        span: sp(start, end),
    }
}

fn tgt_var_expr(name: &str) -> TgtExpr {
    TgtExpr::Path { path: TgtPath { segments: vec![name.to_string()] } }
}

/// `&x` and `&mut x` become address-of operations behind raw-pointer
/// casts of matching mutability; no diagnostic.
#[test]
fn reference_expression_is_rewritten() {
    let mut cx = Reporter::new();
    let shared = lower_expr(
        &SrcExpr::Ref {
            mutable: false,
            inner: Box::new(var_expr("x", 1, 2)),
            span: sp(0, 2),
        },
        &mut cx,
    );
    assert_eq!(
        shared,
        TgtExpr::AddrOfCast { mutable: false, inner: Box::new(tgt_var_expr("x")) }
    );
    let exclusive = lower_expr(
        &SrcExpr::Ref {
            mutable: true,
            inner: Box::new(var_expr("y", 5, 6)),
            span: sp(0, 6),
        },
        &mut cx,
    );
    assert_eq!(
        exclusive,
        TgtExpr::AddrOfCast { mutable: true, inner: Box::new(tgt_var_expr("y")) }
    );
    assert_eq!(cx.len(), 0);
}

/// A string literal becomes a null-terminated literal behind its pointer
/// accessor; other literal kinds map one to one.
#[test]
fn string_literal_is_rewritten() {
    let mut cx = Reporter::new();
    let hello = lower_expr(
        &SrcExpr::Lit { lit: SrcLit::Str("hi".to_string()), span: sp(0, 4) },
        &mut cx,
    );
    assert_eq!(hello, TgtExpr::CStrPtr { bytes: vec![b'h', b'i'] });
    let flag = lower_expr(&SrcExpr::Lit { lit: SrcLit::Bool(true), span: sp(5, 9) }, &mut cx);
    assert_eq!(flag, TgtExpr::Lit { lit: TgtLit::Bool(true) });
    assert_eq!(cx.len(), 0);
}

/// A string literal holding a nul byte cannot become a null-terminated
/// string: a diagnostic and a placeholder.
#[test]
fn nul_in_string_literal_is_rejected() {
    let mut cx = Reporter::new();
    let out = lower_expr(
        &SrcExpr::Lit { lit: SrcLit::Str("a\u{0}b".to_string()), span: sp(0, 6) },
        &mut cx,
    );
    assert_eq!(out, TgtExpr::Underscore);
    assert_eq!(cx.len(), 1);
    assert_eq!(cx.get(0).title, "nul byte in string literal");
    assert_eq!(cx.get(0).category, Category::RestrictionViolation);
}

/// A let with a diverging else keeps its pattern, initializer and
/// diverging block; the block's trailing expression loses its
/// terminator.
#[test]
fn let_else_is_preserved() {
    let mut cx = Reporter::new();
    let stmt = SrcStmt::Let {
        pat: SrcPat::Ident {
            by_ref: false,
            mutable: false,
            name: "v".to_string(),
            sub: None,
            span: sp(4, 5),
        },
        init: Some(Box::new(var_expr("w", 8, 9))),
        els: Some(SrcBlock {
            stmts: vec![SrcStmt::Expr {
                expr: SrcExpr::Return { value: None, span: sp(17, 23) },
                span: sp(17, 24),
            }],
            tail: None,
            span: sp(15, 26),
        }),
        span: sp(0, 26),
    };
    let out = lower_stmt(&stmt, &mut cx);
    assert_eq!(
        out,
        Some(TgtStmt::Let {
            pat: TgtPat::Ident {
                by_ref: false,
                mutable: false,
                name: "v".to_string(),
                sub: None,
            },
            init: Some(TgtLetInit {
                expr: Box::new(tgt_var_expr("w")),
                diverge: Some(TgtBlock {
                    stmts: vec![TgtStmt::Expr {
                        expr: TgtExpr::Return { value: None },
                        semi: true,
                    }],
                }),
            }),
        })
    );
    assert_eq!(cx.len(), 0);
}

/// An unsupported pattern kind yields its diagnostic and a wildcard.
#[test]
fn unsupported_pattern_is_diagnosed() {
    let mut cx = Reporter::new();
    let out = crust::engine::lower_pat(&SrcPat::Boxed { span: sp(2, 10) }, &mut cx);
    assert_eq!(out, TgtPat::Wild);
    assert_eq!(cx.len(), 1);
    assert_eq!(cx.get(0).title, "unsupported pattern");
}

/// A higher-ranked binder in type position is unsupported: a diagnostic
/// and the `Never` placeholder.
#[test]
fn for_type_is_rejected() {
    let mut cx = Reporter::new();
    let out = crust::engine::lower_ty(&SrcTy::For { span: sp(0, 14) }, &mut cx);
    assert_eq!(out, crust::target::TgtTy::Never);
    assert_eq!(cx.len(), 1);
    assert_eq!(cx.get(0).title, "unsupported construct");
}

/// Reference, macro and const-block patterns are unsupported: each
/// yields its diagnostic and a wildcard.
#[test]
fn unsupported_pattern_kinds_are_diagnosed() {
    let mut cx = Reporter::new();
    for p in [
        SrcPat::Ref { span: sp(0, 3) },
        SrcPat::Macro { span: sp(4, 9) },
        SrcPat::ConstBlock { span: sp(10, 19) },
    ] {
        let out = crust::engine::lower_pat(&p, &mut cx);
        assert_eq!(out, TgtPat::Wild);
    }
    assert_eq!(cx.len(), 3);
    for i in 0..3 {
        assert_eq!(cx.get(i).title, "unsupported pattern");
    }
}

/// A block's statements stay in order; dropped item statements leave
/// only their diagnostics behind.
#[test]
fn block_drops_unsupported_items() {
    let mut cx = Reporter::new();
    let block = SrcBlock {
        stmts: vec![
            SrcStmt::Item { item: Box::new(crust::ast::SrcItem::Module { span: sp(1, 8) }) },
            SrcStmt::Expr { expr: var_expr("q", 9, 10), span: sp(9, 11) },
        ],
        tail: Some(Box::new(var_expr("r", 12, 13))),
        span: sp(0, 14),
    };
    let out = lower_block(&block, &mut cx);
    assert_eq!(
        out.stmts,
        vec![
            TgtStmt::Expr { expr: tgt_var_expr("q"), semi: true },
            TgtStmt::Expr { expr: tgt_var_expr("r"), semi: false },
        ]
    );
    assert_eq!(cx.len(), 1);
    assert_eq!(cx.get(0).title, "unsupported construct");
}

/// An array type keeps its element and its length expression.
#[test]
fn array_type_is_structural() {
    let mut cx = Reporter::new();
    let out = crust::engine::lower_ty(
        &SrcTy::Array {
            elem: Box::new(SrcTy::Infer { span: sp(1, 2) }),
            len: Box::new(SrcExpr::Lit {
                lit: SrcLit::Int("4".to_string()),
                span: sp(4, 5),
            }),
            span: sp(0, 6),
        },
        &mut cx,
    );
    assert_eq!(
        out,
        crust::target::TgtTy::Array {
            elem: Box::new(crust::target::TgtTy::Infer),
            len: Box::new(TgtExpr::Lit { lit: TgtLit::Int("4".to_string()) }),
        }
    );
    assert_eq!(cx.len(), 0);
}

/// A missing source-file argument is a user-input error whose span sits
/// at the end of the program name.
#[test]
fn missing_argument_diagnostic() {
    let d = diagnose_missing_argument("crustc");
    assert_eq!(d.severity, Severity::Error);
    assert_eq!(d.category, Category::UserInputError);
    assert_eq!(d.title, "not enough arguments");
    assert_eq!(d.span, sp(6, 6));
    assert_eq!(d.label, "expected path to source file here");
}

/// An unreadable source file is a user-input error whose span covers the
/// path inside the argument-list text.
#[test]
fn unreadable_file_diagnostic() {
    let (line, d) = diagnose_unreadable_file("crustc", "missing.crs");
    assert_eq!(line, "crustc missing.crs ");
    assert_eq!(d.category, Category::UserInputError);
    assert_eq!(d.title, "failed to open source file");
    assert_eq!(d.span, sp(7, 18));
    assert_eq!(&line[d.span.start..d.span.end], "missing.crs");
}

/// Rendering a diagnostic against its source text shows the title, the
/// label and the origin; the diagnostic's span must land on the
/// offending text.
#[test]
fn rendering_shows_the_snippet() {
    let d = Diagnostic {
        severity: Severity::Error,
        category: Category::RestrictionViolation,
        title: "reference type used".to_string(),
        span: sp(10, 14),
        label: "reference types are not allowed".to_string(),
        help: Some("try using pointers".to_string()),
    };
    let source = "fn bad(x: &i32) -> i32 { *x }";
    let out = render_diagnostic(&d, source, "bad.crs");
    assert!(out.contains("reference type used"));
    assert!(out.contains("reference types are not allowed"));
    assert!(out.contains("bad.crs"));
    assert!(out.contains("try using pointers"));
    assert!(out.contains("&i32"));
    // A span beyond the text is forced inside it rather than trusted.
    let wild = Diagnostic { span: sp(1000, 2000), ..d };
    let clamped = render_diagnostic(&wild, source, "bad.crs");
    assert!(clamped.contains("reference type used"));
    // Text the snippet renderer cannot annotate safely still renders.
    let plain = render_diagnostic(
        &Diagnostic { span: sp(0, 1), ..wild },
        "fn bad(x: &i32) -> i32 { *x } // caf\u{e9}",
        "bad.crs",
    );
    assert_eq!(
        plain,
        "reference type used: reference types are not allowed"
    );
}

/// A line wider than the renderer's budget, or a tab, keeps the snippet
/// renderer out: the one-line form is used instead, and nothing panics.
#[test]
fn oversized_lines_fall_back() {
    let d = Diagnostic {
        severity: Severity::Error,
        category: Category::RestrictionViolation,
        title: "reference type used".to_string(),
        span: sp(0, 1),
        label: "reference types are not allowed".to_string(),
        help: None,
    };
    let mut long = String::new();
    for _ in 0..20 {
        long.push(' ');
    }
    for _ in 0..220 {
        long.push('x');
    }
    let out = render_diagnostic(&d, &long, "long.crs");
    assert_eq!(out, "reference type used: reference types are not allowed");
    let tabbed = render_diagnostic(&d, "fn a() {\t}", "tab.crs");
    assert_eq!(tabbed, "reference type used: reference types are not allowed");
    // A source just inside the budget still gets the full snippet.
    let mut edge = String::new();
    for _ in 0..100 {
        edge.push('y');
    }
    let shown = render_diagnostic(&d, &edge, "edge.crs");
    assert!(shown.contains("reference type used"));
    assert!(shown.contains("edge.crs"));
    assert!(shown.contains("yyy"));
}
