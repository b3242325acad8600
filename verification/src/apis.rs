//! Capability adapters: one fixed path per capability.

use vstd::prelude::*;

pub mod completions;
pub mod edits;

verus! {

/// Relative path of the edit-creation capability.
pub const EDIT_CREATE: &'static str = "edits";

} // verus!
