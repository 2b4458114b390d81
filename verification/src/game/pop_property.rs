use vstd::prelude::*;

verus! {

/// Day-end records for a pop.
///
/// The field stays on the pop. What it records is not chosen yet.
#[derive(Debug, Clone, PartialEq, Default)]
pub struct PopRecords {}

} // verus!
