use vstd::prelude::*;

verus! {

/// # Pop Tags
///
/// Tags a population can have. These tags apply to the entire population, regardless of the household.
/// These tags can be inherited from the households within if they are cohiesive.
#[derive(Debug, PartialEq, Eq, Clone, Hash, Structural)]
pub enum PopTag {
    /// Population is a slave. It cannot sell anything it has and anything it owns but
    /// doesn't need is immediately either scrapped to the tile, or handed over to the owner.
    Slave,
}

} // verus!
