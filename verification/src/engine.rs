//! The executable pass.
//!
//! Every function here is proved to return exactly what the policy in
//! `lowering` prescribes, and to append to the reporter exactly the
//! diagnostics the policy prescribes, in order.

mod exprs;
mod helpers;
mod items;
mod pats;
mod tys;

pub use exprs::{lower_block, lower_expr, lower_stmt};
pub use items::{lower_item, lower_source_file};
pub use pats::lower_pat;
pub use tys::{lower_path, lower_ty, lower_vis};
