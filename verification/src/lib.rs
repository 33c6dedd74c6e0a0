//! A personal command ledger: stores labelled shell commands as lines of a
//! plain-text file, and offers the operations of a small command-line tool
//! around them (add, list, favorite, run, echo, delete, help).
//!
//! Every data structure and rule lives here, verified; reading and writing the
//! ledger file, and spawning the shell, are left to the surrounding binary.

pub mod args;
pub mod digits;
pub mod dispatch;
pub mod entry;
pub mod handlers;
pub mod help;
pub mod ops;
pub mod render;
pub mod store;

use vstd::prelude::*;

verus! {

/// The views of a sequence of strings.
pub open spec fn string_views(s: Seq<String>) -> Seq<Seq<char>> {
    s.map_values(|x: String| x@)
}

} // verus!
