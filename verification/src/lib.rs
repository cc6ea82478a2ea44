//! Verified core of an interactive project scaffolding tool.
//!
//! The library holds the tool's decision logic: package-name normalization
//! and validation, the "effectively empty directory" test, template-directory
//! resolution, the upward search for the installation root, the template-tree
//! copy with its rename rule, and the interactive flow's state machine.
//! A thin unverified shell performs the prompts and the filesystem calls and
//! feeds their results back in as plain values.

pub mod flow;
pub mod fsops;
pub mod name;
pub mod template;
pub mod tree;

use vstd::prelude::*;

verus! {

/// True of the characters the normalizer treats as whitespace when trimming.
pub open spec fn is_space(c: char) -> bool {
    c == ' ' || c == '\t' || c == '\n' || c == '\r' || c == '\u{c}'
}

} // verus!
