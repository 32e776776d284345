//! Listing of a Windows object-manager directory, driven step by step.
//!
//! The operating-system calls (open, query, close) stay with the caller; this
//! crate decides which call comes next, decodes what the calls hand back and
//! collects the entries.
use vstd::prelude::*;

pub mod listing;
pub mod wide;

verus! {

} // verus!
