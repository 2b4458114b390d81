use vstd::prelude::*;

verus! {

/// # Household Member
///
/// Used in various places to denote and reference the subcomponents
/// of a household.
///
/// Currently only covers our built in members. If members are made generic and
/// moddable, then this may need to be just removed outright.
#[derive(Clone, Copy, Debug)]
pub enum HouseholdMember {
    Adult,
    Child,
    Elder,
}

} // verus!
