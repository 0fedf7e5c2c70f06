//! Small verified building blocks of the pass: copies of leaf nodes and
//! the construction of each diagnostic the policy can produce.

use vstd::prelude::*;

use crate::ast::{view_attr, view_lit, Attr, SrcLit};
use crate::diag::{Category, Diagnostic, Severity, Span};
use crate::lowering::{
    bad_vis_path_diag, derive_clone_copy_attr, lower_plain_lit, missing_body_diag, no_std_attr,
    nul_in_string_diag, partial_type_diag, ref_type_diag, unsupported_construct_diag,
    unsupported_pattern_diag,
};
use crate::target::{view_tgt_lit, TgtLit};

verus! {

broadcast use vstd::std_specs::vec::group_vec_axioms, vstd::string::group_string_axioms;

/// Copy a byte vector.
pub fn clone_bytes(v: &Vec<u8>) -> (r: Vec<u8>)
    ensures
        r@ == v@,
{
    let mut out: Vec<u8> = Vec::new();
    let mut j: usize = 0;
    while j < v.len()
        invariant
            j <= v.len(),
            out@ =~= v@.take(j as int),
        decreases v.len() - j,
    {
        out.push(v[j]);
        proof {
            assert(out@ =~= v@.take(j as int + 1));
        }
        j = j + 1;
    }
    proof {
        assert(v@.take(v@.len() as int) =~= v@);
    }
    out
}

/// Copy a string vector.
pub fn clone_strings(v: &Vec<String>) -> (r: Vec<String>)
    ensures
        r@ == v@,
{
    let mut out: Vec<String> = Vec::new();
    let mut j: usize = 0;
    while j < v.len()
        invariant
            j <= v.len(),
            out@ =~= v@.take(j as int),
        decreases v.len() - j,
    {
        out.push(v[j].clone());
        proof {
            assert(out@ =~= v@.take(j as int + 1));
        }
        j = j + 1;
    }
    proof {
        assert(v@.take(v@.len() as int) =~= v@);
    }
    out
}

/// Copy an optional string.
pub fn clone_opt_string(v: &Option<String>) -> (r: Option<String>)
    ensures
        r == *v,
{
    match v {
        Some(s) => Some(s.clone()),
        None => None,
    }
}

/// Copy one attribute.
pub fn clone_attr(a: &Attr) -> (r: Attr)
    ensures
        r@ == a@,
{
    let r = Attr { path: clone_strings(&a.path), args: a.args.clone() };
    proof {
        assert(r.path.deep_view() =~= a.path.deep_view());
        assert(r@ =~= a@);
    }
    r
}

/// Copy an attribute list.
pub fn clone_attrs(v: &Vec<Attr>) -> (r: Vec<Attr>)
    ensures
        r.deep_view() == v.deep_view(),
{
    let mut out: Vec<Attr> = Vec::new();
    let mut j: usize = 0;
    while j < v.len()
        invariant
            j <= v.len(),
            out@.len() == j,
            forall|i: int| 0 <= i < j ==> out@[i]@ == v@[i]@,
        decreases v.len() - j,
    {
        out.push(clone_attr(&v[j]));
        j = j + 1;
    }
    proof {
        assert(out.deep_view() =~= v.deep_view());
    }
    out
}

/// Whether a byte slice holds a nul byte.
pub fn contains_nul(b: &[u8]) -> (r: bool)
    ensures
        r == b@.contains(0u8),
{
    let mut j: usize = 0;
    let mut found: bool = false;
    while j < b.len()
        invariant
            j <= b.len(),
            found == exists|i: int| 0 <= i < j && b@[i] == 0u8,
        decreases b.len() - j,
    {
        if b[j] == 0 {
            found = true;
        }
        j = j + 1;
    }
    proof {
        if found {
            let i = choose|i: int| 0 <= i < b@.len() && b@[i] == 0u8;
            assert(b@.contains(0u8));
        }
        if b@.contains(0u8) {
            let i = choose|i: int| 0 <= i < b@.len() && b@[i] == 0u8;
            assert(found);
        }
    }
    found
}

/// One literal kind mapped to its target kind.  A plain string maps to
/// its null-terminated bytes; in expression position the lowering
/// rewrites string literals before this mapping is reached.
pub fn lower_plain_lit_exec(l: &SrcLit) -> (r: TgtLit)
    ensures
        r@ == lower_plain_lit(l@),
{
    match l {
        SrcLit::Str(s) => TgtLit::CStr(vstd::slice::slice_to_vec(s.as_str().as_bytes())),
        SrcLit::ByteStr(b) => TgtLit::ByteStr(clone_bytes(b)),
        SrcLit::CStr(b) => TgtLit::CStr(clone_bytes(b)),
        SrcLit::Int(s) => TgtLit::Int(s.clone()),
        SrcLit::Float(s) => TgtLit::Float(s.clone()),
        SrcLit::Char(c) => TgtLit::Char(*c),
        SrcLit::Byte(b) => TgtLit::Byte(*b),
        SrcLit::Bool(b) => TgtLit::Bool(*b),
    }
}

/// The inner attribute every target unit starts with.
pub fn make_no_std_attr() -> (r: Attr)
    ensures
        r@ == no_std_attr(),
{
    let mut path: Vec<String> = Vec::new();
    path.push("no_std".to_string());
    let r = Attr { path, args: String::new() };
    proof {
        assert(r.path.deep_view() =~= no_std_attr().path);
        assert(r@ =~= no_std_attr());
    }
    r
}

/// The derive appended to every struct and enum declaration.
pub fn make_derive_clone_copy_attr() -> (r: Attr)
    ensures
        r@ == derive_clone_copy_attr(),
{
    let mut path: Vec<String> = Vec::new();
    path.push("derive".to_string());
    let r = Attr { path, args: "Clone, Copy".to_string() };
    proof {
        assert(r.path.deep_view() =~= derive_clone_copy_attr().path);
        assert(r@ =~= derive_clone_copy_attr());
    }
    r
}

pub fn make_ref_type_diag(span: Span) -> (d: Diagnostic)
    ensures
        d@ == ref_type_diag(span),
{
    Diagnostic {
        severity: Severity::Error,
        category: Category::RestrictionViolation,
        title: "reference type used".to_string(),
        span,
        label: "reference types are not allowed".to_string(),
        help: Some("try using pointers".to_string()),
    }
}

pub fn make_unsupported_construct_diag(span: Span) -> (d: Diagnostic)
    ensures
        d@ == unsupported_construct_diag(span),
{
    Diagnostic {
        severity: Severity::Error,
        category: Category::UnsupportedConstruct,
        title: "unsupported construct".to_string(),
        span,
        label: "no lowering is defined for this construct".to_string(),
        help: None,
    }
}

pub fn make_unsupported_pattern_diag(span: Span) -> (d: Diagnostic)
    ensures
        d@ == unsupported_pattern_diag(span),
{
    Diagnostic {
        severity: Severity::Error,
        category: Category::UnsupportedConstruct,
        title: "unsupported pattern".to_string(),
        span,
        label: "no lowering is defined for this pattern".to_string(),
        help: None,
    }
}

pub fn make_partial_type_diag(span: Span) -> (d: Diagnostic)
    ensures
        d@ == partial_type_diag(span),
{
    Diagnostic {
        severity: Severity::Warning,
        category: Category::UnsupportedConstruct,
        title: "partially supported type".to_string(),
        span,
        label: "this type is lowered with reduced fidelity".to_string(),
        help: None,
    }
}

pub fn make_missing_body_diag(span: Span) -> (d: Diagnostic)
    ensures
        d@ == missing_body_diag(span),
{
    Diagnostic {
        severity: Severity::Error,
        category: Category::StructuralError,
        title: "missing body".to_string(),
        span,
        label: "a body is required here".to_string(),
        help: None,
    }
}

pub fn make_bad_vis_path_diag(span: Span) -> (d: Diagnostic)
    ensures
        d@ == bad_vis_path_diag(span),
{
    Diagnostic {
        severity: Severity::Error,
        category: Category::StructuralError,
        title: "unresolvable visibility path".to_string(),
        span,
        label: "this visibility path is empty".to_string(),
        help: None,
    }
}

pub fn make_nul_in_string_diag(span: Span) -> (d: Diagnostic)
    ensures
        d@ == nul_in_string_diag(span),
{
    Diagnostic {
        severity: Severity::Error,
        category: Category::RestrictionViolation,
        title: "nul byte in string literal".to_string(),
        span,
        label: "the dialect's strings are null-terminated".to_string(),
        help: None,
    }
}

} // verus!
