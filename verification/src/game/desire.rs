use vstd::prelude::*;

verus! {

/// # Demo Desire
///
/// A demographic desire as the religion and species tables key it: its unique
/// id and its tier. Tiers run 0, 1 and 2.
#[derive(Debug, Clone, Copy, PartialEq, Eq, Structural)]
pub struct DemoDesire {
    /// The unique id of the desire.
    pub id: usize,
    /// The tier of the desire: 0, 1 or 2.
    pub tier: usize,
}

impl DemoDesire {
    /// # New
    ///
    /// A desire with the given id and tier.
    pub fn new(id: usize, tier: usize) -> (d: Self)
        ensures
            d.id == id,
            d.tier == tier,
    {
        DemoDesire { id, tier }
    }
}

} // verus!
