//! The diagnostics of the command-line surface.
//!
//! A missing argument and an unreadable source file are reported through
//! the same diagnostic type as the pass's own findings, with synthetic
//! spans over the argument-list text.

use vstd::prelude::*;

use crate::diag::{Category, DiagV, Diagnostic, Severity, Span};
use vstd::string::{StrSliceExecFns, StringExecFns};

verus! {

broadcast use vstd::std_specs::vec::group_vec_axioms, vstd::string::group_string_axioms;

/// The diagnostic for an invocation without a source-file argument: its
/// span sits at the end of the program name.
pub open spec fn missing_argument_diag(program: Seq<char>) -> DiagV {
    DiagV {
        severity: Severity::Error,
        category: Category::UserInputError,
        title: "not enough arguments"@,
        span: Span { start: program.len() as usize, end: program.len() as usize },
        label: "expected path to source file here"@,
        help: None,
    }
}

/// The argument-list text a file error is rendered against.
pub open spec fn args_line(program: Seq<char>, path: Seq<char>) -> Seq<char> {
    program + " "@ + path + " "@
}

/// The diagnostic for a source file that could not be opened: its span
/// covers the path inside the argument-list text.
pub open spec fn unreadable_file_diag(program: Seq<char>, path: Seq<char>) -> DiagV {
    DiagV {
        severity: Severity::Error,
        category: Category::UserInputError,
        title: "failed to open source file"@,
        span: Span {
            start: (program.len() + 1) as usize,
            end: (program.len() + 1 + path.len()) as usize,
        },
        label: "couldn't open this file"@,
        help: None,
    }
}

/// Build the missing-argument diagnostic for this invocation.
pub fn diagnose_missing_argument(program: &str) -> (d: Diagnostic)
    ensures
        d@ == missing_argument_diag(program@),
{
    let n = program.unicode_len();
    Diagnostic {
        severity: Severity::Error,
        category: Category::UserInputError,
        title: "not enough arguments".to_string(),
        span: Span { start: n, end: n },
        label: "expected path to source file here".to_string(),
        help: None,
    }
}

/// Build the unreadable-file diagnostic for this invocation, together
/// with the argument-list text its span points into.
pub fn diagnose_unreadable_file(program: &str, path: &str) -> (r: (String, Diagnostic))
    requires
        program@.len() + path@.len() + 2 <= usize::MAX,
    ensures
        r.0@ == args_line(program@, path@),
        r.1@ == unreadable_file_diag(program@, path@),
{
    let mut line = program.to_string();
    line.append(" ");
    line.append(path);
    line.append(" ");
    let n = program.unicode_len();
    let m = path.unicode_len();
    let d = Diagnostic {
        severity: Severity::Error,
        category: Category::UserInputError,
        title: "failed to open source file".to_string(),
        span: Span { start: n + 1, end: n + 1 + m },
        label: "couldn't open this file".to_string(),
        help: None,
    };
    proof {
        assert(line@ =~= args_line(program@, path@));
    }
    (line, d)
}

} // verus!
