//! The source tree.
//!
//! Every node carries the byte span of the text it was parsed from.  The
//! grammar is deliberately open-ended: kinds the pass has no policy for
//! (macro items, box patterns, macro types, ...) are present as their own
//! variants so that the lowering must treat them explicitly.
//!
//! Each executable node type has a ghost mirror (`...V`) holding the same
//! information over `Seq`, and a view function relating the two.  All
//! contracts of the pass are stated over the mirrors.

use vstd::prelude::*;

use crate::diag::Span;

verus! {

broadcast use vstd::std_specs::vec::group_vec_axioms, vstd::string::group_string_axioms;

// ---------------------------------------------------------------------------
// Leaf nodes: path segments, paths, visibility, attributes, literals.
// ---------------------------------------------------------------------------

/// One segment of a source path.
#[derive(Debug, PartialEq, Eq)]
pub enum SrcSeg {
    /// A plain identifier.
    Name(String),
    /// The `Self` type keyword.
    SelfType,
    /// The `self` value keyword.
    SelfValue,
    /// The `super` keyword.
    Super,
    /// The `crate` keyword.
    Crate,
}

#[verifier::ext_equal]
pub enum SrcSegV {
    Name(Seq<char>),
    SelfType,
    SelfValue,
    Super,
    Crate,
}

pub open spec fn view_seg(s: SrcSeg) -> SrcSegV {
    match s {
        SrcSeg::Name(n) => SrcSegV::Name(n@),
        SrcSeg::SelfType => SrcSegV::SelfType,
        SrcSeg::SelfValue => SrcSegV::SelfValue,
        SrcSeg::Super => SrcSegV::Super,
        SrcSeg::Crate => SrcSegV::Crate,
    }
}

impl View for SrcSeg {
    type V = SrcSegV;

    open spec fn view(&self) -> SrcSegV {
        view_seg(*self)
    }
}

impl DeepView for SrcSeg {
    type V = SrcSegV;

    open spec fn deep_view(&self) -> SrcSegV {
        view_seg(*self)
    }
}

/// A source path: a non-empty sequence of segments.
#[derive(Debug, PartialEq, Eq)]
pub struct SrcPath {
    pub segments: Vec<SrcSeg>,
}

#[verifier::ext_equal]
pub struct SrcPathV {
    pub segments: Seq<SrcSegV>,
}

pub open spec fn view_path(p: SrcPath) -> SrcPathV {
    SrcPathV { segments: p.segments.deep_view() }
}

impl View for SrcPath {
    type V = SrcPathV;

    open spec fn view(&self) -> SrcPathV {
        view_path(*self)
    }
}

impl DeepView for SrcPath {
    type V = SrcPathV;

    open spec fn deep_view(&self) -> SrcPathV {
        view_path(*self)
    }
}

/// An explicit source visibility.
///
/// An item with no visibility at all is carried as `Option<SrcVis>::None`.
#[derive(Debug, PartialEq, Eq)]
pub enum SrcVis {
    /// `pub`
    Pub,
    /// `pub(crate)`
    PubCrate,
    /// `pub(super)`
    PubSuper,
    /// `pub(self)`
    PubSelf,
    /// `pub(in path)`
    PubIn { path: SrcPath, span: Span },
}

#[verifier::ext_equal]
pub enum SrcVisV {
    Pub,
    PubCrate,
    PubSuper,
    PubSelf,
    PubIn { path: SrcPathV, span: Span },
}

pub open spec fn view_vis(v: SrcVis) -> SrcVisV {
    match v {
        SrcVis::Pub => SrcVisV::Pub,
        SrcVis::PubCrate => SrcVisV::PubCrate,
        SrcVis::PubSuper => SrcVisV::PubSuper,
        SrcVis::PubSelf => SrcVisV::PubSelf,
        SrcVis::PubIn { path, span } => SrcVisV::PubIn { path: view_path(path), span },
    }
}

impl View for SrcVis {
    type V = SrcVisV;

    open spec fn view(&self) -> SrcVisV {
        view_vis(*self)
    }
}

impl DeepView for SrcVis {
    type V = SrcVisV;

    open spec fn deep_view(&self) -> SrcVisV {
        view_vis(*self)
    }
}

/// An attribute: a dotted identifier path and an opaque argument text.
#[derive(Debug, PartialEq, Eq)]
pub struct Attr {
    pub path: Vec<String>,
    pub args: String,
}

#[verifier::ext_equal]
pub struct AttrV {
    pub path: Seq<Seq<char>>,
    pub args: Seq<char>,
}

pub open spec fn view_attr(a: Attr) -> AttrV {
    AttrV { path: a.path.deep_view(), args: a.args@ }
}

impl View for Attr {
    type V = AttrV;

    open spec fn view(&self) -> AttrV {
        view_attr(*self)
    }
}

impl DeepView for Attr {
    type V = AttrV;

    open spec fn deep_view(&self) -> AttrV {
        view_attr(*self)
    }
}

/// A literal token.
#[derive(Debug, PartialEq, Eq)]
pub enum SrcLit {
    /// A string literal, unescaped.
    Str(String),
    /// A byte-string literal, unescaped.
    ByteStr(Vec<u8>),
    /// A C-string literal, unescaped, without its terminator.
    CStr(Vec<u8>),
    /// An integer literal, kept as its source text.
    Int(String),
    /// A floating-point literal, kept as its source text.
    Float(String),
    /// A character literal, unescaped.
    Char(char),
    /// A byte literal, unescaped.
    Byte(u8),
    /// A boolean literal.
    Bool(bool),
}

#[verifier::ext_equal]
pub enum SrcLitV {
    Str(Seq<char>),
    ByteStr(Seq<u8>),
    CStr(Seq<u8>),
    Int(Seq<char>),
    Float(Seq<char>),
    Char(char),
    Byte(u8),
    Bool(bool),
}

pub open spec fn view_lit(l: SrcLit) -> SrcLitV {
    match l {
        SrcLit::Str(s) => SrcLitV::Str(s@),
        SrcLit::ByteStr(b) => SrcLitV::ByteStr(b@),
        SrcLit::CStr(b) => SrcLitV::CStr(b@),
        SrcLit::Int(s) => SrcLitV::Int(s@),
        SrcLit::Float(s) => SrcLitV::Float(s@),
        SrcLit::Char(c) => SrcLitV::Char(c),
        SrcLit::Byte(b) => SrcLitV::Byte(b),
        SrcLit::Bool(b) => SrcLitV::Bool(b),
    }
}

impl View for SrcLit {
    type V = SrcLitV;

    open spec fn view(&self) -> SrcLitV {
        view_lit(*self)
    }
}

impl DeepView for SrcLit {
    type V = SrcLitV;

    open spec fn deep_view(&self) -> SrcLitV {
        view_lit(*self)
    }
}

/// A unary operator.
#[derive(Clone, Copy, Debug, PartialEq, Eq, Structural)]
pub enum UnOp {
    Deref,
    Neg,
    Not,
}

/// A binary operator.
#[derive(Clone, Copy, Debug, PartialEq, Eq, Structural)]
pub enum BinOp {
    Add,
    Sub,
    Mul,
    Div,
    Rem,
    And,
    Or,
    BitAnd,
    BitOr,
    BitXor,
    Shl,
    Shr,
    CmpEq,
    CmpNe,
    CmpLt,
    CmpLe,
    CmpGt,
    CmpGe,
}

// ---------------------------------------------------------------------------
// The mutually recursive tree: types, expressions, statements, patterns,
// items.
// ---------------------------------------------------------------------------

/// A source type.
#[derive(Debug, PartialEq, Eq)]
pub enum SrcTy {
    /// `*const T` / `*mut T`
    Ptr { mutable: bool, elem: Box<SrcTy>, span: Span },
    /// `&T` / `&mut T` — rejected by the target dialect.
    Ref { mutable: bool, elem: Box<SrcTy>, span: Span },
    /// `[T; len]`
    Array { elem: Box<SrcTy>, len: Box<SrcExpr>, span: Span },
    /// `[T]`
    Slice { elem: Box<SrcTy>, span: Span },
    /// `(T, ...)`
    Tuple { elems: Vec<SrcTy>, span: Span },
    /// A named type.
    Path { path: SrcPath, span: Span },
    /// The never type.
    Never { span: Span },
    /// `_`
    Infer { span: Span },
    /// `(T)`
    Paren { inner: Box<SrcTy>, span: Span },
    /// A function-pointer type — partially supported.
    FnPtr { span: Span },
    /// A trait-object type — partially supported.
    TraitObject { span: Span },
    /// An opaque `impl` type — partially supported.
    ImplTrait { span: Span },
    /// A macro in type position — unsupported.
    Macro { span: Span },
    /// A higher-ranked binder in type position — unsupported.
    For { span: Span },
}

#[verifier::ext_equal]
pub enum SrcTyV {
    Ptr { mutable: bool, elem: Box<SrcTyV>, span: Span },
    Ref { mutable: bool, elem: Box<SrcTyV>, span: Span },
    Array { elem: Box<SrcTyV>, len: Box<SrcExprV>, span: Span },
    Slice { elem: Box<SrcTyV>, span: Span },
    Tuple { elems: Seq<SrcTyV>, span: Span },
    Path { path: SrcPathV, span: Span },
    Never { span: Span },
    Infer { span: Span },
    Paren { inner: Box<SrcTyV>, span: Span },
    FnPtr { span: Span },
    TraitObject { span: Span },
    ImplTrait { span: Span },
    Macro { span: Span },
    For { span: Span },
}

/// A source expression.
#[derive(Debug, PartialEq, Eq)]
pub enum SrcExpr {
    /// A literal.
    Lit { lit: SrcLit, span: Span },
    /// A named value.
    Path { path: SrcPath, span: Span },
    /// `&e` / `&mut e` — rewritten to a raw-pointer cast.
    Ref { mutable: bool, inner: Box<SrcExpr>, span: Span },
    /// `*e`, `-e`, `!e`
    Unary { op: UnOp, inner: Box<SrcExpr>, span: Span },
    /// `a op b`
    Binary { op: BinOp, lhs: Box<SrcExpr>, rhs: Box<SrcExpr>, span: Span },
    /// `f(args...)`
    Call { callee: Box<SrcExpr>, args: Vec<SrcExpr>, span: Span },
    /// `(e)`
    Paren { inner: Box<SrcExpr>, span: Span },
    /// A block expression.
    Block { block: SrcBlock, span: Span },
    /// `e as T`
    Cast { inner: Box<SrcExpr>, ty: Box<SrcTy>, span: Span },
    /// `return` / `return e`
    Return { value: Option<Box<SrcExpr>>, span: Span },
    /// `_` in expression position.
    Underscore { span: Span },
    /// A macro call in expression position — unsupported.
    MacroCall { span: Span },
}

#[verifier::ext_equal]
pub enum SrcExprV {
    Lit { lit: SrcLitV, span: Span },
    Path { path: SrcPathV, span: Span },
    Ref { mutable: bool, inner: Box<SrcExprV>, span: Span },
    Unary { op: UnOp, inner: Box<SrcExprV>, span: Span },
    Binary { op: BinOp, lhs: Box<SrcExprV>, rhs: Box<SrcExprV>, span: Span },
    Call { callee: Box<SrcExprV>, args: Seq<SrcExprV>, span: Span },
    Paren { inner: Box<SrcExprV>, span: Span },
    Block { block: SrcBlockV, span: Span },
    Cast { inner: Box<SrcExprV>, ty: Box<SrcTyV>, span: Span },
    Return { value: Option<Box<SrcExprV>>, span: Span },
    Underscore { span: Span },
    MacroCall { span: Span },
}

/// A block: statements plus an optional trailing expression.
#[derive(Debug, PartialEq, Eq)]
pub struct SrcBlock {
    pub stmts: Vec<SrcStmt>,
    pub tail: Option<Box<SrcExpr>>,
    pub span: Span,
}

#[verifier::ext_equal]
pub struct SrcBlockV {
    pub stmts: Seq<SrcStmtV>,
    pub tail: Option<Box<SrcExprV>>,
    pub span: Span,
}

/// A source statement.
#[derive(Debug, PartialEq, Eq)]
pub enum SrcStmt {
    /// An expression statement, terminated by a semicolon.
    Expr { expr: SrcExpr, span: Span },
    /// `let pat = init else { ... };`
    Let { pat: SrcPat, init: Option<Box<SrcExpr>>, els: Option<SrcBlock>, span: Span },
    /// An item declared inside a block.
    Item { item: Box<SrcItem> },
}

#[verifier::ext_equal]
pub enum SrcStmtV {
    Expr { expr: Box<SrcExprV>, span: Span },
    Let { pat: Box<SrcPatV>, init: Option<Box<SrcExprV>>, els: Option<SrcBlockV>, span: Span },
    Item { item: Box<SrcItemV> },
}

/// A source pattern.
#[derive(Debug, PartialEq, Eq)]
pub enum SrcPat {
    /// `ref mut name @ sub`
    Ident { by_ref: bool, mutable: bool, name: String, sub: Option<Box<SrcPat>>, span: Span },
    /// `_`
    Wild { span: Span },
    /// `path { field: pat, ..., .. }`
    Record { path: SrcPath, fields: Vec<SrcFieldPat>, has_rest: bool, span: Span },
    /// `path(pats...)`
    TupleStruct { path: SrcPath, elems: Vec<SrcPat>, span: Span },
    /// `(pats...)`
    Tuple { elems: Vec<SrcPat>, span: Span },
    /// `a | b`
    Or { alts: Vec<SrcPat>, span: Span },
    /// A unit-struct or constant path.
    Path { path: SrcPath, span: Span },
    /// `lo..=hi`
    Range { lo: Option<SrcLit>, hi: Option<SrcLit>, span: Span },
    /// `[pats...]`
    Slice { elems: Vec<SrcPat>, span: Span },
    /// `..`
    Rest { span: Span },
    /// `(pat)`
    Paren { inner: Box<SrcPat>, span: Span },
    /// A literal pattern — unsupported.
    Lit { lit: SrcLit, span: Span },
    /// A box pattern — unsupported.
    Boxed { span: Span },
    /// A reference pattern — unsupported.
    Ref { span: Span },
    /// A macro in pattern position — unsupported.
    Macro { span: Span },
    /// A const-block pattern — unsupported.
    ConstBlock { span: Span },
}

#[verifier::ext_equal]
pub enum SrcPatV {
    Ident { by_ref: bool, mutable: bool, name: Seq<char>, sub: Option<Box<SrcPatV>>, span: Span },
    Wild { span: Span },
    Record { path: SrcPathV, fields: Seq<SrcFieldPatV>, has_rest: bool, span: Span },
    TupleStruct { path: SrcPathV, elems: Seq<SrcPatV>, span: Span },
    Tuple { elems: Seq<SrcPatV>, span: Span },
    Or { alts: Seq<SrcPatV>, span: Span },
    Path { path: SrcPathV, span: Span },
    Range { lo: Option<SrcLitV>, hi: Option<SrcLitV>, span: Span },
    Slice { elems: Seq<SrcPatV>, span: Span },
    Rest { span: Span },
    Paren { inner: Box<SrcPatV>, span: Span },
    Lit { lit: SrcLitV, span: Span },
    Boxed { span: Span },
    Ref { span: Span },
    Macro { span: Span },
    ConstBlock { span: Span },
}

/// One named field inside a record pattern.
#[derive(Debug, PartialEq, Eq)]
pub struct SrcFieldPat {
    pub name: String,
    pub pat: SrcPat,
}

#[verifier::ext_equal]
pub struct SrcFieldPatV {
    pub name: Seq<char>,
    pub pat: SrcPatV,
}

/// One function parameter.
#[derive(Debug, PartialEq, Eq)]
pub struct SrcParam {
    pub pat: SrcPat,
    pub ty: SrcTy,
}

#[verifier::ext_equal]
pub struct SrcParamV {
    pub pat: SrcPatV,
    pub ty: SrcTyV,
}

/// One struct, union or enum-variant field.
#[derive(Debug, PartialEq, Eq)]
pub struct SrcField {
    pub name: Option<String>,
    pub vis: Option<SrcVis>,
    pub ty: SrcTy,
}

#[verifier::ext_equal]
pub struct SrcFieldV {
    pub name: Option<Seq<char>>,
    pub vis: Option<SrcVisV>,
    pub ty: SrcTyV,
}

/// The field list of a struct or of an enum variant.
#[derive(Debug, PartialEq, Eq)]
pub enum SrcStructKind {
    Record(Vec<SrcField>),
    Tuple(Vec<SrcField>),
    Unit,
}

#[verifier::ext_equal]
pub enum SrcStructKindV {
    Record(Seq<SrcFieldV>),
    Tuple(Seq<SrcFieldV>),
    Unit,
}

/// One enum variant.
#[derive(Debug, PartialEq, Eq)]
pub struct SrcVariant {
    pub name: String,
    pub kind: SrcStructKind,
}

#[verifier::ext_equal]
pub struct SrcVariantV {
    pub name: Seq<char>,
    pub kind: SrcStructKindV,
}

/// A top-level source declaration.
#[derive(Debug, PartialEq, Eq)]
pub enum SrcItem {
    /// A function.
    Fn {
        name: String,
        vis: Option<SrcVis>,
        is_const: bool,
        is_async: bool,
        abi: Option<String>,
        params: Vec<SrcParam>,
        variadic: bool,
        ret: Option<Box<SrcTy>>,
        body: Option<SrcBlock>,
        span: Span,
    },
    /// A struct declaration.
    Struct { name: String, vis: Option<SrcVis>, attrs: Vec<Attr>, kind: SrcStructKind, span: Span },
    /// An enum declaration.
    Enum {
        name: String,
        vis: Option<SrcVis>,
        attrs: Vec<Attr>,
        variants: Vec<SrcVariant>,
        span: Span,
    },
    /// A constant.
    Const {
        name: String,
        vis: Option<SrcVis>,
        ty: Box<SrcTy>,
        body: Option<Box<SrcExpr>>,
        span: Span,
    },
    /// A static.
    Static {
        name: String,
        vis: Option<SrcVis>,
        mutable: bool,
        ty: Box<SrcTy>,
        body: Option<Box<SrcExpr>>,
        span: Span,
    },
    /// A trait declaration — unsupported.
    Trait { span: Span },
    /// An impl block — unsupported.
    Impl { span: Span },
    /// A module — unsupported.
    Module { span: Span },
    /// A type alias — unsupported.
    TypeAlias { span: Span },
    /// A macro definition — unsupported.
    MacroDef { span: Span },
    /// A use declaration — unsupported.
    Use { span: Span },
    /// A union declaration — unsupported.
    Union { span: Span },
}

#[verifier::ext_equal]
pub enum SrcItemV {
    Fn {
        name: Seq<char>,
        vis: Option<SrcVisV>,
        is_const: bool,
        is_async: bool,
        abi: Option<Seq<char>>,
        params: Seq<SrcParamV>,
        variadic: bool,
        ret: Option<Box<SrcTyV>>,
        body: Option<SrcBlockV>,
        span: Span,
    },
    Struct {
        name: Seq<char>,
        vis: Option<SrcVisV>,
        attrs: Seq<AttrV>,
        kind: SrcStructKindV,
        span: Span,
    },
    Enum {
        name: Seq<char>,
        vis: Option<SrcVisV>,
        attrs: Seq<AttrV>,
        variants: Seq<SrcVariantV>,
        span: Span,
    },
    Const {
        name: Seq<char>,
        vis: Option<SrcVisV>,
        ty: Box<SrcTyV>,
        body: Option<Box<SrcExprV>>,
        span: Span,
    },
    Static {
        name: Seq<char>,
        vis: Option<SrcVisV>,
        mutable: bool,
        ty: Box<SrcTyV>,
        body: Option<Box<SrcExprV>>,
        span: Span,
    },
    Trait { span: Span },
    Impl { span: Span },
    Module { span: Span },
    TypeAlias { span: Span },
    MacroDef { span: Span },
    Use { span: Span },
    Union { span: Span },
}

/// One parsed compilation unit.
#[derive(Debug, PartialEq, Eq)]
pub struct SrcFile {
    pub items: Vec<SrcItem>,
}

#[verifier::ext_equal]
pub struct SrcFileV {
    pub items: Seq<SrcItemV>,
}

// ---------------------------------------------------------------------------
// Views of the recursive nodes.
// ---------------------------------------------------------------------------

pub open spec fn view_ty(t: SrcTy) -> SrcTyV
    decreases t,
{
    match t {
        SrcTy::Ptr { mutable, elem, span } => SrcTyV::Ptr {
            mutable,
            elem: Box::new(view_ty(*elem)),
            span,
        },
        SrcTy::Ref { mutable, elem, span } => SrcTyV::Ref {
            mutable,
            elem: Box::new(view_ty(*elem)),
            span,
        },
        SrcTy::Array { elem, len, span } => SrcTyV::Array {
            elem: Box::new(view_ty(*elem)),
            len: Box::new(view_expr(*len)),
            span,
        },
        SrcTy::Slice { elem, span } => SrcTyV::Slice { elem: Box::new(view_ty(*elem)), span },
        SrcTy::Tuple { elems, span } => SrcTyV::Tuple {
            elems: ty_views(elems@, elems@.len() as int),
            span,
        },
        SrcTy::Path { path, span } => SrcTyV::Path { path: view_path(path), span },
        SrcTy::Never { span } => SrcTyV::Never { span },
        SrcTy::Infer { span } => SrcTyV::Infer { span },
        SrcTy::Paren { inner, span } => SrcTyV::Paren { inner: Box::new(view_ty(*inner)), span },
        SrcTy::FnPtr { span } => SrcTyV::FnPtr { span },
        SrcTy::TraitObject { span } => SrcTyV::TraitObject { span },
        SrcTy::ImplTrait { span } => SrcTyV::ImplTrait { span },
        SrcTy::Macro { span } => SrcTyV::Macro { span },
        SrcTy::For { span } => SrcTyV::For { span },
    }
}

/// Views of the first `n` types of `ts`.
pub open spec fn ty_views(ts: Seq<SrcTy>, n: int) -> Seq<SrcTyV>
    decreases ts, n,
{
    if 0 < n <= ts.len() {
        ty_views(ts, n - 1).push(view_ty(ts[n - 1]))
    } else {
        Seq::empty()
    }
}

pub open spec fn view_expr(e: SrcExpr) -> SrcExprV
    decreases e,
{
    match e {
        SrcExpr::Lit { lit, span } => SrcExprV::Lit { lit: view_lit(lit), span },
        SrcExpr::Path { path, span } => SrcExprV::Path { path: view_path(path), span },
        SrcExpr::Ref { mutable, inner, span } => SrcExprV::Ref {
            mutable,
            inner: Box::new(view_expr(*inner)),
            span,
        },
        SrcExpr::Unary { op, inner, span } => SrcExprV::Unary {
            op,
            inner: Box::new(view_expr(*inner)),
            span,
        },
        SrcExpr::Binary { op, lhs, rhs, span } => SrcExprV::Binary {
            op,
            lhs: Box::new(view_expr(*lhs)),
            rhs: Box::new(view_expr(*rhs)),
            span,
        },
        SrcExpr::Call { callee, args, span } => SrcExprV::Call {
            callee: Box::new(view_expr(*callee)),
            args: expr_views(args@, args@.len() as int),
            span,
        },
        SrcExpr::Paren { inner, span } => SrcExprV::Paren {
            inner: Box::new(view_expr(*inner)),
            span,
        },
        SrcExpr::Block { block, span } => SrcExprV::Block { block: view_block(block), span },
        SrcExpr::Cast { inner, ty, span } => SrcExprV::Cast {
            inner: Box::new(view_expr(*inner)),
            ty: Box::new(view_ty(*ty)),
            span,
        },
        SrcExpr::Return { value, span } => SrcExprV::Return {
            value: match value {
                Some(v) => Some(Box::new(view_expr(*v))),
                None => None,
            },
            span,
        },
        SrcExpr::Underscore { span } => SrcExprV::Underscore { span },
        SrcExpr::MacroCall { span } => SrcExprV::MacroCall { span },
    }
}

/// Views of the first `n` expressions of `es`.
pub open spec fn expr_views(es: Seq<SrcExpr>, n: int) -> Seq<SrcExprV>
    decreases es, n,
{
    if 0 < n <= es.len() {
        expr_views(es, n - 1).push(view_expr(es[n - 1]))
    } else {
        Seq::empty()
    }
}

pub open spec fn view_block(b: SrcBlock) -> SrcBlockV
    decreases b,
{
    SrcBlockV {
        stmts: stmt_views(b.stmts@, b.stmts@.len() as int),
        tail: match b.tail {
            Some(e) => Some(Box::new(view_expr(*e))),
            None => None,
        },
        span: b.span,
    }
}

pub open spec fn view_stmt(s: SrcStmt) -> SrcStmtV
    decreases s,
{
    match s {
        SrcStmt::Expr { expr, span } => SrcStmtV::Expr { expr: Box::new(view_expr(expr)), span },
        SrcStmt::Let { pat, init, els, span } => SrcStmtV::Let {
            pat: Box::new(view_pat(pat)),
            init: match init {
                Some(e) => Some(Box::new(view_expr(*e))),
                None => None,
            },
            els: match els {
                Some(b) => Some(view_block(b)),
                None => None,
            },
            span,
        },
        SrcStmt::Item { item } => SrcStmtV::Item { item: Box::new(view_item(*item)) },
    }
}

/// Views of the first `n` statements of `ss`.
pub open spec fn stmt_views(ss: Seq<SrcStmt>, n: int) -> Seq<SrcStmtV>
    decreases ss, n,
{
    if 0 < n <= ss.len() {
        stmt_views(ss, n - 1).push(view_stmt(ss[n - 1]))
    } else {
        Seq::empty()
    }
}

pub open spec fn view_pat(p: SrcPat) -> SrcPatV
    decreases p,
{
    match p {
        SrcPat::Ident { by_ref, mutable, name, sub, span } => SrcPatV::Ident {
            by_ref,
            mutable,
            name: name@,
            sub: match sub {
                Some(q) => Some(Box::new(view_pat(*q))),
                None => None,
            },
            span,
        },
        SrcPat::Wild { span } => SrcPatV::Wild { span },
        SrcPat::Record { path, fields, has_rest, span } => SrcPatV::Record {
            path: view_path(path),
            fields: field_pat_views(fields@, fields@.len() as int),
            has_rest,
            span,
        },
        SrcPat::TupleStruct { path, elems, span } => SrcPatV::TupleStruct {
            path: view_path(path),
            elems: pat_views(elems@, elems@.len() as int),
            span,
        },
        SrcPat::Tuple { elems, span } => SrcPatV::Tuple {
            elems: pat_views(elems@, elems@.len() as int),
            span,
        },
        SrcPat::Or { alts, span } => SrcPatV::Or {
            alts: pat_views(alts@, alts@.len() as int),
            span,
        },
        SrcPat::Path { path, span } => SrcPatV::Path { path: view_path(path), span },
        SrcPat::Range { lo, hi, span } => SrcPatV::Range {
            lo: lo.deep_view(),
            hi: hi.deep_view(),
            span,
        },
        SrcPat::Slice { elems, span } => SrcPatV::Slice {
            elems: pat_views(elems@, elems@.len() as int),
            span,
        },
        SrcPat::Rest { span } => SrcPatV::Rest { span },
        SrcPat::Paren { inner, span } => SrcPatV::Paren {
            inner: Box::new(view_pat(*inner)),
            span,
        },
        SrcPat::Lit { lit, span } => SrcPatV::Lit { lit: view_lit(lit), span },
        SrcPat::Boxed { span } => SrcPatV::Boxed { span },
        SrcPat::Ref { span } => SrcPatV::Ref { span },
        SrcPat::Macro { span } => SrcPatV::Macro { span },
        SrcPat::ConstBlock { span } => SrcPatV::ConstBlock { span },
    }
}

/// Views of the first `n` patterns of `ps`.
pub open spec fn pat_views(ps: Seq<SrcPat>, n: int) -> Seq<SrcPatV>
    decreases ps, n,
{
    if 0 < n <= ps.len() {
        pat_views(ps, n - 1).push(view_pat(ps[n - 1]))
    } else {
        Seq::empty()
    }
}

pub open spec fn view_field_pat(f: SrcFieldPat) -> SrcFieldPatV
    decreases f,
{
    SrcFieldPatV { name: f.name@, pat: view_pat(f.pat) }
}

/// Views of the first `n` field patterns of `fs`.
pub open spec fn field_pat_views(fs: Seq<SrcFieldPat>, n: int) -> Seq<SrcFieldPatV>
    decreases fs, n,
{
    if 0 < n <= fs.len() {
        field_pat_views(fs, n - 1).push(view_field_pat(fs[n - 1]))
    } else {
        Seq::empty()
    }
}

pub open spec fn view_param(p: SrcParam) -> SrcParamV
    decreases p,
{
    SrcParamV { pat: view_pat(p.pat), ty: view_ty(p.ty) }
}

/// Views of the first `n` parameters of `ps`.
pub open spec fn param_views(ps: Seq<SrcParam>, n: int) -> Seq<SrcParamV>
    decreases ps, n,
{
    if 0 < n <= ps.len() {
        param_views(ps, n - 1).push(view_param(ps[n - 1]))
    } else {
        Seq::empty()
    }
}

pub open spec fn view_field(f: SrcField) -> SrcFieldV
    decreases f,
{
    SrcFieldV { name: f.name.deep_view(), vis: f.vis.deep_view(), ty: view_ty(f.ty) }
}

/// Views of the first `n` fields of `fs`.
pub open spec fn field_views(fs: Seq<SrcField>, n: int) -> Seq<SrcFieldV>
    decreases fs, n,
{
    if 0 < n <= fs.len() {
        field_views(fs, n - 1).push(view_field(fs[n - 1]))
    } else {
        Seq::empty()
    }
}

pub open spec fn view_struct_kind(k: SrcStructKind) -> SrcStructKindV
    decreases k,
{
    match k {
        SrcStructKind::Record(fs) => SrcStructKindV::Record(field_views(fs@, fs@.len() as int)),
        SrcStructKind::Tuple(fs) => SrcStructKindV::Tuple(field_views(fs@, fs@.len() as int)),
        SrcStructKind::Unit => SrcStructKindV::Unit,
    }
}

pub open spec fn view_variant(v: SrcVariant) -> SrcVariantV
    decreases v,
{
    SrcVariantV { name: v.name@, kind: view_struct_kind(v.kind) }
}

/// Views of the first `n` variants of `vs`.
pub open spec fn variant_views(vs: Seq<SrcVariant>, n: int) -> Seq<SrcVariantV>
    decreases vs, n,
{
    if 0 < n <= vs.len() {
        variant_views(vs, n - 1).push(view_variant(vs[n - 1]))
    } else {
        Seq::empty()
    }
}

pub open spec fn view_item(i: SrcItem) -> SrcItemV
    decreases i,
{
    match i {
        SrcItem::Fn { name, vis, is_const, is_async, abi, params, variadic, ret, body, span } => {
            SrcItemV::Fn {
                name: name@,
                vis: vis.deep_view(),
                is_const,
                is_async,
                abi: abi.deep_view(),
                params: param_views(params@, params@.len() as int),
                variadic,
                ret: match ret {
                    Some(t) => Some(Box::new(view_ty(*t))),
                    None => None,
                },
                body: match body {
                    Some(b) => Some(view_block(b)),
                    None => None,
                },
                span,
            }
        },
        SrcItem::Struct { name, vis, attrs, kind, span } => SrcItemV::Struct {
            name: name@,
            vis: vis.deep_view(),
            attrs: attrs.deep_view(),
            kind: view_struct_kind(kind),
            span,
        },
        SrcItem::Enum { name, vis, attrs, variants, span } => SrcItemV::Enum {
            name: name@,
            vis: vis.deep_view(),
            attrs: attrs.deep_view(),
            variants: variant_views(variants@, variants@.len() as int),
            span,
        },
        SrcItem::Const { name, vis, ty, body, span } => SrcItemV::Const {
            name: name@,
            vis: vis.deep_view(),
            ty: Box::new(view_ty(*ty)),
            body: match body {
                Some(e) => Some(Box::new(view_expr(*e))),
                None => None,
            },
            span,
        },
        SrcItem::Static { name, vis, mutable, ty, body, span } => SrcItemV::Static {
            name: name@,
            vis: vis.deep_view(),
            mutable,
            ty: Box::new(view_ty(*ty)),
            body: match body {
                Some(e) => Some(Box::new(view_expr(*e))),
                None => None,
            },
            span,
        },
        SrcItem::Trait { span } => SrcItemV::Trait { span },
        SrcItem::Impl { span } => SrcItemV::Impl { span },
        SrcItem::Module { span } => SrcItemV::Module { span },
        SrcItem::TypeAlias { span } => SrcItemV::TypeAlias { span },
        SrcItem::MacroDef { span } => SrcItemV::MacroDef { span },
        SrcItem::Use { span } => SrcItemV::Use { span },
        SrcItem::Union { span } => SrcItemV::Union { span },
    }
}

/// Views of the first `n` items of `is`.
pub open spec fn item_views(items: Seq<SrcItem>, n: int) -> Seq<SrcItemV>
    decreases items, n,
{
    if 0 < n <= items.len() {
        item_views(items, n - 1).push(view_item(items[n - 1]))
    } else {
        Seq::empty()
    }
}

pub open spec fn view_file(f: SrcFile) -> SrcFileV {
    SrcFileV { items: item_views(f.items@, f.items@.len() as int) }
}

// ---------------------------------------------------------------------------
// View trait plumbing for the recursive nodes.
// ---------------------------------------------------------------------------

impl View for SrcTy {
    type V = SrcTyV;

    open spec fn view(&self) -> SrcTyV {
        view_ty(*self)
    }
}

impl View for SrcExpr {
    type V = SrcExprV;

    open spec fn view(&self) -> SrcExprV {
        view_expr(*self)
    }
}

impl View for SrcBlock {
    type V = SrcBlockV;

    open spec fn view(&self) -> SrcBlockV {
        view_block(*self)
    }
}

impl View for SrcStmt {
    type V = SrcStmtV;

    open spec fn view(&self) -> SrcStmtV {
        view_stmt(*self)
    }
}

impl View for SrcPat {
    type V = SrcPatV;

    open spec fn view(&self) -> SrcPatV {
        view_pat(*self)
    }
}

impl View for SrcItem {
    type V = SrcItemV;

    open spec fn view(&self) -> SrcItemV {
        view_item(*self)
    }
}

impl View for SrcStructKind {
    type V = SrcStructKindV;

    open spec fn view(&self) -> SrcStructKindV {
        view_struct_kind(*self)
    }
}

impl View for SrcParam {
    type V = SrcParamV;

    open spec fn view(&self) -> SrcParamV {
        view_param(*self)
    }
}

impl View for SrcField {
    type V = SrcFieldV;

    open spec fn view(&self) -> SrcFieldV {
        view_field(*self)
    }
}

impl View for SrcVariant {
    type V = SrcVariantV;

    open spec fn view(&self) -> SrcVariantV {
        view_variant(*self)
    }
}

impl View for SrcFieldPat {
    type V = SrcFieldPatV;

    open spec fn view(&self) -> SrcFieldPatV {
        view_field_pat(*self)
    }
}

impl View for SrcFile {
    type V = SrcFileV;

    open spec fn view(&self) -> SrcFileV {
        view_file(*self)
    }
}

// ---------------------------------------------------------------------------
// The prefix view functions agree with pointwise views.
// ---------------------------------------------------------------------------

pub broadcast proof fn lemma_ty_views(ts: Seq<SrcTy>, n: int)
    requires
        0 <= n <= ts.len(),
    ensures
        (#[trigger] ty_views(ts, n)) =~= Seq::new(n as nat, |i: int| view_ty(ts[i])),
    decreases n,
{
    if 0 < n {
        lemma_ty_views(ts, n - 1);
    }
}

pub broadcast proof fn lemma_expr_views(es: Seq<SrcExpr>, n: int)
    requires
        0 <= n <= es.len(),
    ensures
        (#[trigger] expr_views(es, n)) =~= Seq::new(n as nat, |i: int| view_expr(es[i])),
    decreases n,
{
    if 0 < n {
        lemma_expr_views(es, n - 1);
    }
}

pub broadcast proof fn lemma_stmt_views(ss: Seq<SrcStmt>, n: int)
    requires
        0 <= n <= ss.len(),
    ensures
        (#[trigger] stmt_views(ss, n)) =~= Seq::new(n as nat, |i: int| view_stmt(ss[i])),
    decreases n,
{
    if 0 < n {
        lemma_stmt_views(ss, n - 1);
    }
}

pub broadcast proof fn lemma_pat_views(ps: Seq<SrcPat>, n: int)
    requires
        0 <= n <= ps.len(),
    ensures
        (#[trigger] pat_views(ps, n)) =~= Seq::new(n as nat, |i: int| view_pat(ps[i])),
    decreases n,
{
    if 0 < n {
        lemma_pat_views(ps, n - 1);
    }
}

pub broadcast proof fn lemma_field_pat_views(fs: Seq<SrcFieldPat>, n: int)
    requires
        0 <= n <= fs.len(),
    ensures
        (#[trigger] field_pat_views(fs, n)) =~= Seq::new(
            n as nat,
            |i: int| view_field_pat(fs[i]),
        ),
    decreases n,
{
    if 0 < n {
        lemma_field_pat_views(fs, n - 1);
    }
}

pub broadcast proof fn lemma_param_views(ps: Seq<SrcParam>, n: int)
    requires
        0 <= n <= ps.len(),
    ensures
        (#[trigger] param_views(ps, n)) =~= Seq::new(n as nat, |i: int| view_param(ps[i])),
    decreases n,
{
    if 0 < n {
        lemma_param_views(ps, n - 1);
    }
}

pub broadcast proof fn lemma_field_views(fs: Seq<SrcField>, n: int)
    requires
        0 <= n <= fs.len(),
    ensures
        (#[trigger] field_views(fs, n)) =~= Seq::new(n as nat, |i: int| view_field(fs[i])),
    decreases n,
{
    if 0 < n {
        lemma_field_views(fs, n - 1);
    }
}

pub broadcast proof fn lemma_variant_views(vs: Seq<SrcVariant>, n: int)
    requires
        0 <= n <= vs.len(),
    ensures
        (#[trigger] variant_views(vs, n)) =~= Seq::new(n as nat, |i: int| view_variant(vs[i])),
    decreases n,
{
    if 0 < n {
        lemma_variant_views(vs, n - 1);
    }
}

pub broadcast proof fn lemma_item_views(items: Seq<SrcItem>, n: int)
    requires
        0 <= n <= items.len(),
    ensures
        (#[trigger] item_views(items, n)) =~= Seq::new(n as nat, |i: int| view_item(items[i])),
    decreases n,
{
    if 0 < n {
        lemma_item_views(items, n - 1);
    }
}

} // verus!
