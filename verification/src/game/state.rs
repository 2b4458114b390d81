use vstd::prelude::*;

verus! {

/// # State
///
/// A State is the interface for players in the game.
#[derive(Debug, Clone)]
pub struct State {
    pub id: usize,
    pub name: String,
}

} // verus!
