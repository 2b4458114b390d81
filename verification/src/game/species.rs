use std::collections::HashMap;
use vstd::prelude::*;

use crate::game::desire::DemoDesire;

verus! {

broadcast use vstd::std_specs::hash::group_hash_axioms;

/// # Species
///
/// The species of a pop. Defines the basic needs required for life, and may later
/// include environment-dependent needs and household baseline modifiers.
///
/// By default this is human; additional species types may be added later.
#[derive(Debug, Clone)]
pub struct Species {
    /// The unique ID of the species.
    pub id: usize,
    /// The name of the species.
    pub name: String,
    /// The ID of the state this is connected to. If a species is not connected to any
    /// state, it is set to 0.
    pub state: usize,
    /// Demographic desires keyed by `DemoDesire.id` for O(1) lookup.
    ///
    /// Tier lives on each `DemoDesire`; amounts are scaled for 1 household.
    pub desires: HashMap<usize, DemoDesire>,
    /// A helper flag to mark when the species' household modifiers have changed,
    /// and so pop households should also be updated.
    pub household_changed: bool,
}

impl Species {
    /// # New
    ///
    /// Creates a species with the given id and name.
    /// State defaults to 0 (no state). Desires start empty.
    pub fn new(id: usize, name: String) -> (r: Self)
        ensures
            r.id == id,
            r.name@ == name@,
            r.state == 0,
            r.desires@ == Map::<usize, DemoDesire>::empty(),
            !r.household_changed,
    {
        Species { id, name, state: 0, desires: HashMap::new(), household_changed: false }
    }

    /// Sets the species' unique ID.
    pub fn with_id(self, id: usize) -> (r: Self)
        ensures
            r.id == id,
            r.name@ == self.name@,
            r.state == self.state,
            r.desires@ == self.desires@,
            r.household_changed == self.household_changed,
    {
        let mut s = self;
        s.id = id;
        s
    }

    /// Sets the species' display name.
    pub fn with_name(self, name: String) -> (r: Self)
        ensures
            r.id == self.id,
            r.name@ == name@,
            r.state == self.state,
            r.desires@ == self.desires@,
            r.household_changed == self.household_changed,
    {
        let mut s = self;
        s.name = name;
        s
    }

    /// Sets the connected state ID (0 means none).
    pub fn with_state(self, state: usize) -> (r: Self)
        ensures
            r.id == self.id,
            r.name@ == self.name@,
            r.state == state,
            r.desires@ == self.desires@,
            r.household_changed == self.household_changed,
    {
        let mut s = self;
        s.state = state;
        s
    }

    /// Adds a demographic desire keyed by its id.
    ///
    /// The desire's tier is 0, 1, or 2, and no desire with the same id may
    /// exist on the species yet.
    pub fn with_desire(self, desire: DemoDesire) -> (r: Self)
        requires
            desire.tier <= 2,
            !self.desires@.contains_key(desire.id),
        ensures
            r.id == self.id,
            r.name@ == self.name@,
            r.state == self.state,
            r.desires@ == self.desires@.insert(desire.id, desire),
            r.household_changed == self.household_changed,
    {
        let mut s = self;
        let id = desire.id;
        s.desires.insert(id, desire);
        s
    }

    /// Finds a demo desire by id.
    pub fn find_desire(&self, desire_id: usize) -> (r: Option<&DemoDesire>)
        ensures
            match r {
                Some(d) => self.desires@.contains_key(desire_id) && *d == self.desires@[desire_id],
                None => !self.desires@.contains_key(desire_id),
            },
    {
        self.desires.get(&desire_id)
    }
}

} // verus!
