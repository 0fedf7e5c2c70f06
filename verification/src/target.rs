//! The target tree: the constrained freestanding dialect.
//!
//! The target grammar mirrors a subset of the source grammar and adds the
//! variants the pass synthesizes: reference types are gone, every function
//! carries an explicit unsafety marker, string literals become
//! null-terminated literals with a pointer accessor, and reference-taking
//! expressions become raw-pointer casts.  Target nodes carry no spans:
//! they are synthesized, not parsed.
//!
//! As in `ast`, every executable node type has a ghost mirror (`...V`)
//! and a view function.

use vstd::prelude::*;

use crate::ast::{Attr, AttrV, BinOp, UnOp};

verus! {

broadcast use vstd::std_specs::vec::group_vec_axioms, vstd::string::group_string_axioms;

/// A target path: plain identifiers only.
#[derive(Debug, PartialEq, Eq)]
pub struct TgtPath {
    pub segments: Vec<String>,
}

#[verifier::ext_equal]
pub struct TgtPathV {
    pub segments: Seq<Seq<char>>,
}

pub open spec fn view_tgt_path(p: TgtPath) -> TgtPathV {
    TgtPathV { segments: p.segments.deep_view() }
}

impl View for TgtPath {
    type V = TgtPathV;

    open spec fn view(&self) -> TgtPathV {
        view_tgt_path(*self)
    }
}

/// A target visibility: public, or restricted to a path.
#[derive(Debug, PartialEq, Eq)]
pub enum TgtVis {
    Public,
    Restricted { path: TgtPath },
}

#[verifier::ext_equal]
pub enum TgtVisV {
    Public,
    Restricted { path: TgtPathV },
}

pub open spec fn view_tgt_vis(v: TgtVis) -> TgtVisV {
    match v {
        TgtVis::Public => TgtVisV::Public,
        TgtVis::Restricted { path } => TgtVisV::Restricted { path: view_tgt_path(path) },
    }
}

impl View for TgtVis {
    type V = TgtVisV;

    open spec fn view(&self) -> TgtVisV {
        view_tgt_vis(*self)
    }
}

/// A target literal.  There is no plain string literal: the dialect's
/// strings are pointer-based, so string literals are rewritten at the
/// expression level.
#[derive(Debug, PartialEq, Eq)]
pub enum TgtLit {
    ByteStr(Vec<u8>),
    CStr(Vec<u8>),
    Int(String),
    Float(String),
    Char(char),
    Byte(u8),
    Bool(bool),
}

#[verifier::ext_equal]
pub enum TgtLitV {
    ByteStr(Seq<u8>),
    CStr(Seq<u8>),
    Int(Seq<char>),
    Float(Seq<char>),
    Char(char),
    Byte(u8),
    Bool(bool),
}

pub open spec fn view_tgt_lit(l: TgtLit) -> TgtLitV {
    match l {
        TgtLit::ByteStr(b) => TgtLitV::ByteStr(b@),
        TgtLit::CStr(b) => TgtLitV::CStr(b@),
        TgtLit::Int(s) => TgtLitV::Int(s@),
        TgtLit::Float(s) => TgtLitV::Float(s@),
        TgtLit::Char(c) => TgtLitV::Char(c),
        TgtLit::Byte(b) => TgtLitV::Byte(b),
        TgtLit::Bool(b) => TgtLitV::Bool(b),
    }
}

impl View for TgtLit {
    type V = TgtLitV;

    open spec fn view(&self) -> TgtLitV {
        view_tgt_lit(*self)
    }
}

/// A target type.  There is no reference type.
#[derive(Debug, PartialEq, Eq)]
pub enum TgtTy {
    /// `*const T` / `*mut T`
    Ptr { mutable: bool, elem: Box<TgtTy> },
    /// `[T; len]`
    Array { elem: Box<TgtTy>, len: Box<TgtExpr> },
    /// `[T]`
    Slice { elem: Box<TgtTy> },
    /// `(T, ...)`
    Tuple { elems: Vec<TgtTy> },
    /// A named type.
    Path { path: TgtPath },
    /// The never type: the placeholder for rejected types.
    Never,
    /// `_`
    Infer,
}

#[verifier::ext_equal]
pub enum TgtTyV {
    Ptr { mutable: bool, elem: Box<TgtTyV> },
    Array { elem: Box<TgtTyV>, len: Box<TgtExprV> },
    Slice { elem: Box<TgtTyV> },
    Tuple { elems: Seq<TgtTyV> },
    Path { path: TgtPathV },
    Never,
    Infer,
}

/// A target expression.
#[derive(Debug, PartialEq, Eq)]
pub enum TgtExpr {
    /// A literal.
    Lit { lit: TgtLit },
    /// A named value.
    Path { path: TgtPath },
    /// A null-terminated string literal followed by a call of its pointer
    /// accessor: the rewrite of a source string literal.  The bytes do not
    /// contain the terminator.
    CStrPtr { bytes: Vec<u8> },
    /// `((&e) as *const _)` / `((&mut e) as *mut _)`: the rewrite of a
    /// source reference-taking expression.
    AddrOfCast { mutable: bool, inner: Box<TgtExpr> },
    /// `*e`, `-e`, `!e`
    Unary { op: UnOp, inner: Box<TgtExpr> },
    /// `a op b`
    Binary { op: BinOp, lhs: Box<TgtExpr>, rhs: Box<TgtExpr> },
    /// `f(args...)`
    Call { callee: Box<TgtExpr>, args: Vec<TgtExpr> },
    /// `(e)`
    Paren { inner: Box<TgtExpr> },
    /// A block expression.
    Block { block: TgtBlock },
    /// `e as T`
    Cast { inner: Box<TgtExpr>, ty: Box<TgtTy> },
    /// `return` / `return e`
    Return { value: Option<Box<TgtExpr>> },
    /// `_`: also the placeholder for unsupported expressions.
    Underscore,
}

#[verifier::ext_equal]
pub enum TgtExprV {
    Lit { lit: TgtLitV },
    Path { path: TgtPathV },
    CStrPtr { bytes: Seq<u8> },
    AddrOfCast { mutable: bool, inner: Box<TgtExprV> },
    Unary { op: UnOp, inner: Box<TgtExprV> },
    Binary { op: BinOp, lhs: Box<TgtExprV>, rhs: Box<TgtExprV> },
    Call { callee: Box<TgtExprV>, args: Seq<TgtExprV> },
    Paren { inner: Box<TgtExprV> },
    Block { block: TgtBlockV },
    Cast { inner: Box<TgtExprV>, ty: Box<TgtTyV> },
    Return { value: Option<Box<TgtExprV>> },
    Underscore,
}

/// A target block.  A trailing source expression becomes a final
/// statement without a terminator.
#[derive(Debug, PartialEq, Eq)]
pub struct TgtBlock {
    pub stmts: Vec<TgtStmt>,
}

#[verifier::ext_equal]
pub struct TgtBlockV {
    pub stmts: Seq<TgtStmtV>,
}

/// The initializer of a target let statement.
#[derive(Debug, PartialEq, Eq)]
pub struct TgtLetInit {
    pub expr: Box<TgtExpr>,
    pub diverge: Option<TgtBlock>,
}

#[verifier::ext_equal]
pub struct TgtLetInitV {
    pub expr: Box<TgtExprV>,
    pub diverge: Option<TgtBlockV>,
}

/// A target statement.
#[derive(Debug, PartialEq, Eq)]
pub enum TgtStmt {
    /// An expression statement; `semi` is false only for a block's
    /// trailing expression.
    Expr { expr: TgtExpr, semi: bool },
    /// `let pat = init else { ... };`
    Let { pat: TgtPat, init: Option<TgtLetInit> },
    /// An item declared inside a block.
    Item { item: Box<TgtItem> },
}

#[verifier::ext_equal]
pub enum TgtStmtV {
    Expr { expr: Box<TgtExprV>, semi: bool },
    Let { pat: Box<TgtPatV>, init: Option<TgtLetInitV> },
    Item { item: Box<TgtItemV> },
}

/// A target pattern.
#[derive(Debug, PartialEq, Eq)]
pub enum TgtPat {
    Ident { by_ref: bool, mutable: bool, name: String, sub: Option<Box<TgtPat>> },
    /// `_`: also the placeholder for unsupported patterns.
    Wild,
    Record { path: TgtPath, fields: Vec<TgtFieldPat>, has_rest: bool },
    TupleStruct { path: TgtPath, elems: Vec<TgtPat> },
    Tuple { elems: Vec<TgtPat> },
    Or { alts: Vec<TgtPat> },
    Path { path: TgtPath },
    Range { lo: Option<TgtLit>, hi: Option<TgtLit> },
    Slice { elems: Vec<TgtPat> },
    Rest,
    Paren { inner: Box<TgtPat> },
}

#[verifier::ext_equal]
pub enum TgtPatV {
    Ident { by_ref: bool, mutable: bool, name: Seq<char>, sub: Option<Box<TgtPatV>> },
    Wild,
    Record { path: TgtPathV, fields: Seq<TgtFieldPatV>, has_rest: bool },
    TupleStruct { path: TgtPathV, elems: Seq<TgtPatV> },
    Tuple { elems: Seq<TgtPatV> },
    Or { alts: Seq<TgtPatV> },
    Path { path: TgtPathV },
    Range { lo: Option<TgtLitV>, hi: Option<TgtLitV> },
    Slice { elems: Seq<TgtPatV> },
    Rest,
    Paren { inner: Box<TgtPatV> },
}

/// One named field inside a target record pattern.
#[derive(Debug, PartialEq, Eq)]
pub struct TgtFieldPat {
    pub name: String,
    pub pat: TgtPat,
}

#[verifier::ext_equal]
pub struct TgtFieldPatV {
    pub name: Seq<char>,
    pub pat: TgtPatV,
}

/// One target function parameter.
#[derive(Debug, PartialEq, Eq)]
pub struct TgtParam {
    pub pat: TgtPat,
    pub ty: TgtTy,
}

#[verifier::ext_equal]
pub struct TgtParamV {
    pub pat: TgtPatV,
    pub ty: TgtTyV,
}

/// One target field.
#[derive(Debug, PartialEq, Eq)]
pub struct TgtField {
    pub name: Option<String>,
    pub vis: TgtVis,
    pub ty: TgtTy,
}

#[verifier::ext_equal]
pub struct TgtFieldV {
    pub name: Option<Seq<char>>,
    pub vis: TgtVisV,
    pub ty: TgtTyV,
}

/// The field list of a target struct or enum variant.
#[derive(Debug, PartialEq, Eq)]
pub enum TgtStructKind {
    Record(Vec<TgtField>),
    Tuple(Vec<TgtField>),
    Unit,
}

#[verifier::ext_equal]
pub enum TgtStructKindV {
    Record(Seq<TgtFieldV>),
    Tuple(Seq<TgtFieldV>),
    Unit,
}

/// One target enum variant.
#[derive(Debug, PartialEq, Eq)]
pub struct TgtVariant {
    pub name: String,
    pub kind: TgtStructKind,
}

#[verifier::ext_equal]
pub struct TgtVariantV {
    pub name: Seq<char>,
    pub kind: TgtStructKindV,
}

/// A target declaration.
#[derive(Debug, PartialEq, Eq)]
pub enum TgtItem {
    /// A function; `unsafety` is the dialect's explicit unsafety marker.
    Fn {
        name: String,
        vis: TgtVis,
        unsafety: bool,
        is_const: bool,
        is_async: bool,
        abi: Option<String>,
        params: Vec<TgtParam>,
        variadic: bool,
        ret: Option<Box<TgtTy>>,
        body: TgtBlock,
    },
    /// A struct declaration.
    Struct { name: String, vis: TgtVis, attrs: Vec<Attr>, kind: TgtStructKind },
    /// An enum declaration.
    Enum { name: String, vis: TgtVis, attrs: Vec<Attr>, variants: Vec<TgtVariant> },
    /// A constant.
    Const { name: String, vis: TgtVis, ty: Box<TgtTy>, expr: Box<TgtExpr> },
    /// A static.
    Static { name: String, vis: TgtVis, mutable: bool, ty: Box<TgtTy>, expr: Box<TgtExpr> },
}

#[verifier::ext_equal]
pub enum TgtItemV {
    Fn {
        name: Seq<char>,
        vis: TgtVisV,
        unsafety: bool,
        is_const: bool,
        is_async: bool,
        abi: Option<Seq<char>>,
        params: Seq<TgtParamV>,
        variadic: bool,
        ret: Option<Box<TgtTyV>>,
        body: TgtBlockV,
    },
    Struct { name: Seq<char>, vis: TgtVisV, attrs: Seq<AttrV>, kind: TgtStructKindV },
    Enum { name: Seq<char>, vis: TgtVisV, attrs: Seq<AttrV>, variants: Seq<TgtVariantV> },
    Const { name: Seq<char>, vis: TgtVisV, ty: Box<TgtTyV>, expr: Box<TgtExprV> },
    Static { name: Seq<char>, vis: TgtVisV, mutable: bool, ty: Box<TgtTyV>, expr: Box<TgtExprV> },
}

/// One target compilation unit: its inner attributes and its declarations.
#[derive(Debug, PartialEq, Eq)]
pub struct TgtFile {
    pub attrs: Vec<Attr>,
    pub items: Vec<TgtItem>,
}

#[verifier::ext_equal]
pub struct TgtFileV {
    pub attrs: Seq<AttrV>,
    pub items: Seq<TgtItemV>,
}

// ---------------------------------------------------------------------------
// Views of the recursive nodes.
// ---------------------------------------------------------------------------

pub open spec fn view_tgt_ty(t: TgtTy) -> TgtTyV
    decreases t,
{
    match t {
        TgtTy::Ptr { mutable, elem } => TgtTyV::Ptr { mutable, elem: Box::new(view_tgt_ty(*elem)) },
        TgtTy::Array { elem, len } => TgtTyV::Array {
            elem: Box::new(view_tgt_ty(*elem)),
            len: Box::new(view_tgt_expr(*len)),
        },
        TgtTy::Slice { elem } => TgtTyV::Slice { elem: Box::new(view_tgt_ty(*elem)) },
        TgtTy::Tuple { elems } => TgtTyV::Tuple {
            elems: tgt_ty_views(elems@, elems@.len() as int),
        },
        TgtTy::Path { path } => TgtTyV::Path { path: view_tgt_path(path) },
        TgtTy::Never => TgtTyV::Never,
        TgtTy::Infer => TgtTyV::Infer,
    }
}

/// Views of the first `n` types of `ts`.
pub open spec fn tgt_ty_views(ts: Seq<TgtTy>, n: int) -> Seq<TgtTyV>
    decreases ts, n,
{
    if 0 < n <= ts.len() {
        tgt_ty_views(ts, n - 1).push(view_tgt_ty(ts[n - 1]))
    } else {
        Seq::empty()
    }
}

pub open spec fn view_tgt_expr(e: TgtExpr) -> TgtExprV
    decreases e,
{
    match e {
        TgtExpr::Lit { lit } => TgtExprV::Lit { lit: view_tgt_lit(lit) },
        TgtExpr::Path { path } => TgtExprV::Path { path: view_tgt_path(path) },
        TgtExpr::CStrPtr { bytes } => TgtExprV::CStrPtr { bytes: bytes@ },
        TgtExpr::AddrOfCast { mutable, inner } => TgtExprV::AddrOfCast {
            mutable,
            inner: Box::new(view_tgt_expr(*inner)),
        },
        TgtExpr::Unary { op, inner } => TgtExprV::Unary {
            op,
            inner: Box::new(view_tgt_expr(*inner)),
        },
        TgtExpr::Binary { op, lhs, rhs } => TgtExprV::Binary {
            op,
            lhs: Box::new(view_tgt_expr(*lhs)),
            rhs: Box::new(view_tgt_expr(*rhs)),
        },
        TgtExpr::Call { callee, args } => TgtExprV::Call {
            callee: Box::new(view_tgt_expr(*callee)),
            args: tgt_expr_views(args@, args@.len() as int),
        },
        TgtExpr::Paren { inner } => TgtExprV::Paren { inner: Box::new(view_tgt_expr(*inner)) },
        TgtExpr::Block { block } => TgtExprV::Block { block: view_tgt_block(block) },
        TgtExpr::Cast { inner, ty } => TgtExprV::Cast {
            inner: Box::new(view_tgt_expr(*inner)),
            ty: Box::new(view_tgt_ty(*ty)),
        },
        TgtExpr::Return { value } => TgtExprV::Return {
            value: match value {
                Some(v) => Some(Box::new(view_tgt_expr(*v))),
                None => None,
            },
        },
        TgtExpr::Underscore => TgtExprV::Underscore,
    }
}

/// Views of the first `n` expressions of `es`.
pub open spec fn tgt_expr_views(es: Seq<TgtExpr>, n: int) -> Seq<TgtExprV>
    decreases es, n,
{
    if 0 < n <= es.len() {
        tgt_expr_views(es, n - 1).push(view_tgt_expr(es[n - 1]))
    } else {
        Seq::empty()
    }
}

pub open spec fn view_tgt_block(b: TgtBlock) -> TgtBlockV
    decreases b,
{
    TgtBlockV { stmts: tgt_stmt_views(b.stmts@, b.stmts@.len() as int) }
}

pub open spec fn view_tgt_stmt(s: TgtStmt) -> TgtStmtV
    decreases s,
{
    match s {
        TgtStmt::Expr { expr, semi } => TgtStmtV::Expr {
            expr: Box::new(view_tgt_expr(expr)),
            semi,
        },
        TgtStmt::Let { pat, init } => TgtStmtV::Let {
            pat: Box::new(view_tgt_pat(pat)),
            init: match init {
                Some(i) => Some(
                    TgtLetInitV {
                        expr: Box::new(view_tgt_expr(*i.expr)),
                        diverge: match i.diverge {
                            Some(b) => Some(view_tgt_block(b)),
                            None => None,
                        },
                    },
                ),
                None => None,
            },
        },
        TgtStmt::Item { item } => TgtStmtV::Item { item: Box::new(view_tgt_item(*item)) },
    }
}

/// Views of the first `n` statements of `ss`.
pub open spec fn tgt_stmt_views(ss: Seq<TgtStmt>, n: int) -> Seq<TgtStmtV>
    decreases ss, n,
{
    if 0 < n <= ss.len() {
        tgt_stmt_views(ss, n - 1).push(view_tgt_stmt(ss[n - 1]))
    } else {
        Seq::empty()
    }
}

pub open spec fn view_tgt_pat(p: TgtPat) -> TgtPatV
    decreases p,
{
    match p {
        TgtPat::Ident { by_ref, mutable, name, sub } => TgtPatV::Ident {
            by_ref,
            mutable,
            name: name@,
            sub: match sub {
                Some(q) => Some(Box::new(view_tgt_pat(*q))),
                None => None,
            },
        },
        TgtPat::Wild => TgtPatV::Wild,
        TgtPat::Record { path, fields, has_rest } => TgtPatV::Record {
            path: view_tgt_path(path),
            fields: tgt_field_pat_views(fields@, fields@.len() as int),
            has_rest,
        },
        TgtPat::TupleStruct { path, elems } => TgtPatV::TupleStruct {
            path: view_tgt_path(path),
            elems: tgt_pat_views(elems@, elems@.len() as int),
        },
        TgtPat::Tuple { elems } => TgtPatV::Tuple {
            elems: tgt_pat_views(elems@, elems@.len() as int),
        },
        TgtPat::Or { alts } => TgtPatV::Or { alts: tgt_pat_views(alts@, alts@.len() as int) },
        TgtPat::Path { path } => TgtPatV::Path { path: view_tgt_path(path) },
        TgtPat::Range { lo, hi } => TgtPatV::Range {
            lo: match lo {
                Some(l) => Some(view_tgt_lit(l)),
                None => None,
            },
            hi: match hi {
                Some(l) => Some(view_tgt_lit(l)),
                None => None,
            },
        },
        TgtPat::Slice { elems } => TgtPatV::Slice {
            elems: tgt_pat_views(elems@, elems@.len() as int),
        },
        TgtPat::Rest => TgtPatV::Rest,
        TgtPat::Paren { inner } => TgtPatV::Paren { inner: Box::new(view_tgt_pat(*inner)) },
    }
}

/// Views of the first `n` patterns of `ps`.
pub open spec fn tgt_pat_views(ps: Seq<TgtPat>, n: int) -> Seq<TgtPatV>
    decreases ps, n,
{
    if 0 < n <= ps.len() {
        tgt_pat_views(ps, n - 1).push(view_tgt_pat(ps[n - 1]))
    } else {
        Seq::empty()
    }
}

pub open spec fn view_tgt_field_pat(f: TgtFieldPat) -> TgtFieldPatV
    decreases f,
{
    TgtFieldPatV { name: f.name@, pat: view_tgt_pat(f.pat) }
}

/// Views of the first `n` field patterns of `fs`.
pub open spec fn tgt_field_pat_views(fs: Seq<TgtFieldPat>, n: int) -> Seq<TgtFieldPatV>
    decreases fs, n,
{
    if 0 < n <= fs.len() {
        tgt_field_pat_views(fs, n - 1).push(view_tgt_field_pat(fs[n - 1]))
    } else {
        Seq::empty()
    }
}

pub open spec fn view_tgt_param(p: TgtParam) -> TgtParamV
    decreases p,
{
    TgtParamV { pat: view_tgt_pat(p.pat), ty: view_tgt_ty(p.ty) }
}

/// Views of the first `n` parameters of `ps`.
pub open spec fn tgt_param_views(ps: Seq<TgtParam>, n: int) -> Seq<TgtParamV>
    decreases ps, n,
{
    if 0 < n <= ps.len() {
        tgt_param_views(ps, n - 1).push(view_tgt_param(ps[n - 1]))
    } else {
        Seq::empty()
    }
}

pub open spec fn view_tgt_field(f: TgtField) -> TgtFieldV
    decreases f,
{
    TgtFieldV { name: f.name.deep_view(), vis: view_tgt_vis(f.vis), ty: view_tgt_ty(f.ty) }
}

/// Views of the first `n` fields of `fs`.
pub open spec fn tgt_field_views(fs: Seq<TgtField>, n: int) -> Seq<TgtFieldV>
    decreases fs, n,
{
    if 0 < n <= fs.len() {
        tgt_field_views(fs, n - 1).push(view_tgt_field(fs[n - 1]))
    } else {
        Seq::empty()
    }
}

pub open spec fn view_tgt_struct_kind(k: TgtStructKind) -> TgtStructKindV
    decreases k,
{
    match k {
        TgtStructKind::Record(fs) => TgtStructKindV::Record(
            tgt_field_views(fs@, fs@.len() as int),
        ),
        TgtStructKind::Tuple(fs) => TgtStructKindV::Tuple(tgt_field_views(fs@, fs@.len() as int)),
        TgtStructKind::Unit => TgtStructKindV::Unit,
    }
}

pub open spec fn view_tgt_variant(v: TgtVariant) -> TgtVariantV
    decreases v,
{
    TgtVariantV { name: v.name@, kind: view_tgt_struct_kind(v.kind) }
}

/// Views of the first `n` variants of `vs`.
pub open spec fn tgt_variant_views(vs: Seq<TgtVariant>, n: int) -> Seq<TgtVariantV>
    decreases vs, n,
{
    if 0 < n <= vs.len() {
        tgt_variant_views(vs, n - 1).push(view_tgt_variant(vs[n - 1]))
    } else {
        Seq::empty()
    }
}

pub open spec fn view_tgt_item(i: TgtItem) -> TgtItemV
    decreases i,
{
    match i {
        TgtItem::Fn { name, vis, unsafety, is_const, is_async, abi, params, variadic, ret, body } => {
            TgtItemV::Fn {
                name: name@,
                vis: view_tgt_vis(vis),
                unsafety,
                is_const,
                is_async,
                abi: abi.deep_view(),
                params: tgt_param_views(params@, params@.len() as int),
                variadic,
                ret: match ret {
                    Some(t) => Some(Box::new(view_tgt_ty(*t))),
                    None => None,
                },
                body: view_tgt_block(body),
            }
        },
        TgtItem::Struct { name, vis, attrs, kind } => TgtItemV::Struct {
            name: name@,
            vis: view_tgt_vis(vis),
            attrs: attrs.deep_view(),
            kind: view_tgt_struct_kind(kind),
        },
        TgtItem::Enum { name, vis, attrs, variants } => TgtItemV::Enum {
            name: name@,
            vis: view_tgt_vis(vis),
            attrs: attrs.deep_view(),
            variants: tgt_variant_views(variants@, variants@.len() as int),
        },
        TgtItem::Const { name, vis, ty, expr } => TgtItemV::Const {
            name: name@,
            vis: view_tgt_vis(vis),
            ty: Box::new(view_tgt_ty(*ty)),
            expr: Box::new(view_tgt_expr(*expr)),
        },
        TgtItem::Static { name, vis, mutable, ty, expr } => TgtItemV::Static {
            name: name@,
            vis: view_tgt_vis(vis),
            mutable,
            ty: Box::new(view_tgt_ty(*ty)),
            expr: Box::new(view_tgt_expr(*expr)),
        },
    }
}

/// Views of the first `n` items of `is`.
pub open spec fn tgt_item_views(items: Seq<TgtItem>, n: int) -> Seq<TgtItemV>
    decreases items, n,
{
    if 0 < n <= items.len() {
        tgt_item_views(items, n - 1).push(view_tgt_item(items[n - 1]))
    } else {
        Seq::empty()
    }
}

pub open spec fn view_tgt_file(f: TgtFile) -> TgtFileV {
    TgtFileV { attrs: f.attrs.deep_view(), items: tgt_item_views(f.items@, f.items@.len() as int) }
}

// ---------------------------------------------------------------------------
// View trait plumbing.
// ---------------------------------------------------------------------------

impl View for TgtTy {
    type V = TgtTyV;

    open spec fn view(&self) -> TgtTyV {
        view_tgt_ty(*self)
    }
}

impl View for TgtExpr {
    type V = TgtExprV;

    open spec fn view(&self) -> TgtExprV {
        view_tgt_expr(*self)
    }
}

impl View for TgtBlock {
    type V = TgtBlockV;

    open spec fn view(&self) -> TgtBlockV {
        view_tgt_block(*self)
    }
}

impl View for TgtStmt {
    type V = TgtStmtV;

    open spec fn view(&self) -> TgtStmtV {
        view_tgt_stmt(*self)
    }
}

impl View for TgtPat {
    type V = TgtPatV;

    open spec fn view(&self) -> TgtPatV {
        view_tgt_pat(*self)
    }
}

impl View for TgtItem {
    type V = TgtItemV;

    open spec fn view(&self) -> TgtItemV {
        view_tgt_item(*self)
    }
}

impl View for TgtStructKind {
    type V = TgtStructKindV;

    open spec fn view(&self) -> TgtStructKindV {
        view_tgt_struct_kind(*self)
    }
}

impl View for TgtParam {
    type V = TgtParamV;

    open spec fn view(&self) -> TgtParamV {
        view_tgt_param(*self)
    }
}

impl View for TgtField {
    type V = TgtFieldV;

    open spec fn view(&self) -> TgtFieldV {
        view_tgt_field(*self)
    }
}

impl View for TgtVariant {
    type V = TgtVariantV;

    open spec fn view(&self) -> TgtVariantV {
        view_tgt_variant(*self)
    }
}

impl View for TgtFieldPat {
    type V = TgtFieldPatV;

    open spec fn view(&self) -> TgtFieldPatV {
        view_tgt_field_pat(*self)
    }
}

impl View for TgtFile {
    type V = TgtFileV;

    open spec fn view(&self) -> TgtFileV {
        view_tgt_file(*self)
    }
}

// ---------------------------------------------------------------------------
// The prefix view functions agree with pointwise views.
// ---------------------------------------------------------------------------

pub broadcast proof fn lemma_tgt_ty_views(ts: Seq<TgtTy>, n: int)
    requires
        0 <= n <= ts.len(),
    ensures
        (#[trigger] tgt_ty_views(ts, n)) =~= Seq::new(n as nat, |i: int| view_tgt_ty(ts[i])),
    decreases n,
{
    if 0 < n {
        lemma_tgt_ty_views(ts, n - 1);
    }
}

pub broadcast proof fn lemma_tgt_expr_views(es: Seq<TgtExpr>, n: int)
    requires
        0 <= n <= es.len(),
    ensures
        (#[trigger] tgt_expr_views(es, n)) =~= Seq::new(n as nat, |i: int| view_tgt_expr(es[i])),
    decreases n,
{
    if 0 < n {
        lemma_tgt_expr_views(es, n - 1);
    }
}

pub broadcast proof fn lemma_tgt_stmt_views(ss: Seq<TgtStmt>, n: int)
    requires
        0 <= n <= ss.len(),
    ensures
        (#[trigger] tgt_stmt_views(ss, n)) =~= Seq::new(n as nat, |i: int| view_tgt_stmt(ss[i])),
    decreases n,
{
    if 0 < n {
        lemma_tgt_stmt_views(ss, n - 1);
    }
}

pub broadcast proof fn lemma_tgt_pat_views(ps: Seq<TgtPat>, n: int)
    requires
        0 <= n <= ps.len(),
    ensures
        (#[trigger] tgt_pat_views(ps, n)) =~= Seq::new(n as nat, |i: int| view_tgt_pat(ps[i])),
    decreases n,
{
    if 0 < n {
        lemma_tgt_pat_views(ps, n - 1);
    }
}

pub broadcast proof fn lemma_tgt_field_pat_views(fs: Seq<TgtFieldPat>, n: int)
    requires
        0 <= n <= fs.len(),
    ensures
        (#[trigger] tgt_field_pat_views(fs, n)) =~= Seq::new(
            n as nat,
            |i: int| view_tgt_field_pat(fs[i]),
        ),
    decreases n,
{
    if 0 < n {
        lemma_tgt_field_pat_views(fs, n - 1);
    }
}

pub broadcast proof fn lemma_tgt_param_views(ps: Seq<TgtParam>, n: int)
    requires
        0 <= n <= ps.len(),
    ensures
        (#[trigger] tgt_param_views(ps, n)) =~= Seq::new(n as nat, |i: int| view_tgt_param(ps[i])),
    decreases n,
{
    if 0 < n {
        lemma_tgt_param_views(ps, n - 1);
    }
}

pub broadcast proof fn lemma_tgt_field_views(fs: Seq<TgtField>, n: int)
    requires
        0 <= n <= fs.len(),
    ensures
        (#[trigger] tgt_field_views(fs, n)) =~= Seq::new(n as nat, |i: int| view_tgt_field(fs[i])),
    decreases n,
{
    if 0 < n {
        lemma_tgt_field_views(fs, n - 1);
    }
}

pub broadcast proof fn lemma_tgt_variant_views(vs: Seq<TgtVariant>, n: int)
    requires
        0 <= n <= vs.len(),
    ensures
        (#[trigger] tgt_variant_views(vs, n)) =~= Seq::new(
            n as nat,
            |i: int| view_tgt_variant(vs[i]),
        ),
    decreases n,
{
    if 0 < n {
        lemma_tgt_variant_views(vs, n - 1);
    }
}

pub broadcast proof fn lemma_tgt_item_views(items: Seq<TgtItem>, n: int)
    requires
        0 <= n <= items.len(),
    ensures
        (#[trigger] tgt_item_views(items, n)) =~= Seq::new(
            n as nat,
            |i: int| view_tgt_item(items[i]),
        ),
    decreases n,
{
    if 0 < n {
        lemma_tgt_item_views(items, n - 1);
    }
}

} // verus!
