//! A dialect-restriction pass for a freestanding target language.
//!
//! The library takes a parsed source tree and produces a tree in a
//! constrained dialect: reference types are rejected with diagnostics,
//! reference-taking expressions are rewritten to raw-pointer casts, every
//! function is marked unsafe, unspecified visibility becomes public, and
//! struct and enum declarations receive a `Clone`/`Copy` derive.  Every
//! reachable source node is either transformed or rejected with a
//! diagnostic; the output tree stays structurally valid either way.

pub mod ast;
pub mod cli;
pub mod diag;
pub mod engine;
pub mod laws;
pub mod lowering;
pub mod measures;
pub mod render;
pub mod target;

pub use diag::{Category, Diagnostic, Reporter, Severity, Span};
