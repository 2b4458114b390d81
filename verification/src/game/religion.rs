use std::collections::HashMap;
use vstd::prelude::*;

use crate::game::desire::DemoDesire;

verus! {

broadcast use vstd::std_specs::hash::group_hash_axioms;

/// # Religion
///
/// The religion of a pop. Defines additional common and luxury needs as well as
/// secondary benefits and influence the player can develop.
///
/// Religion is maleable to the player it's attached to, similar to Culture.
#[derive(Debug, Clone)]
pub struct Religion {
    /// The unique ID of the religion.
    pub id: usize,
    /// The name of the religion.
    pub name: String,
    /// The ID of the state this is connected to. If a religion is not connected to any
    /// state, it is set to 0.
    pub state: usize,
    /// Demographic desires keyed by `DemoDesire.id` for O(1) lookup.
    ///
    /// Tier lives on each `DemoDesire`; amounts are scaled for 1 household.
    pub desires: HashMap<usize, DemoDesire>,
}

/// Every desire in the table is stored under its own id.
pub open spec fn desires_keyed_by_id(desires: Map<usize, DemoDesire>) -> bool {
    forall|k: usize| #[trigger] desires.contains_key(k) ==> desires[k].id == k
}

impl Religion {
    /// # New
    ///
    /// Creates a religion with the given id and name.
    /// State defaults to 0 (no state). Desires start empty.
    pub fn new(id: usize, name: String) -> (r: Self)
        ensures
            r.id == id,
            r.name@ == name@,
            r.state == 0,
            r.desires@ == Map::<usize, DemoDesire>::empty(),
    {
        Religion { id, name, state: 0, desires: HashMap::new() }
    }

    /// Sets the religion's unique ID.
    pub fn with_id(self, id: usize) -> (r: Self)
        ensures
            r.id == id,
            r.name@ == self.name@,
            r.state == self.state,
            r.desires@ == self.desires@,
    {
        let mut s = self;
        s.id = id;
        s
    }

    /// Sets the religion's display name.
    pub fn with_name(self, name: String) -> (r: Self)
        ensures
            r.id == self.id,
            r.name@ == name@,
            r.state == self.state,
            r.desires@ == self.desires@,
    {
        let mut s = self;
        s.name = name;
        s
    }

    /// Sets the connected state ID (0 means none).
    pub fn with_state(self, state: usize) -> (r: Self)
        ensures
            r.id == self.id,
            r.name@ == self.name@,
            r.state == state,
            r.desires@ == self.desires@,
    {
        let mut s = self;
        s.state = state;
        s
    }

    /// Adds a demographic desire keyed by its id.
    ///
    /// The desire's tier is 0, 1, or 2, and no desire with the same id may
    /// exist on the religion yet.
    pub fn with_desire(self, desire: DemoDesire) -> (r: Self)
        requires
            desire.tier <= 2,
            !self.desires@.contains_key(desire.id),
        ensures
            r.id == self.id,
            r.name@ == self.name@,
            r.state == self.state,
            r.desires@ == self.desires@.insert(desire.id, desire),
    {
        let mut s = self;
        let id = desire.id;
        s.desires.insert(id, desire);
        s
    }

    /// Finds a demo desire by id.
    pub fn find_desire(&self, desire_id: usize) -> (r: Option<&DemoDesire>)
        ensures
            match r {
                Some(d) => self.desires@.contains_key(desire_id) && *d == self.desires@[desire_id],
                None => !self.desires@.contains_key(desire_id),
            },
    {
        self.desires.get(&desire_id)
    }
}

/// A desire added to a desire table (of a religion or a species) is found under its id afterwards, the
/// others stay as they were, and a table keyed by id stays keyed by id.
pub proof fn added_desire_is_found(desires: Map<usize, DemoDesire>, desire: DemoDesire)
    requires
        !desires.contains_key(desire.id),
    ensures
        desires.insert(desire.id, desire).contains_key(desire.id),
        desires.insert(desire.id, desire)[desire.id] == desire,
        forall|k: usize|
            k != desire.id ==> (#[trigger] desires.insert(desire.id, desire).contains_key(k)
                <==> desires.contains_key(k)),
        forall|k: usize|
            k != desire.id && desires.contains_key(k) ==> #[trigger] desires.insert(
                desire.id,
                desire,
            )[k] == desires[k],
        desires_keyed_by_id(desires) ==> desires_keyed_by_id(desires.insert(desire.id, desire)),
{
}

} // verus!
