//! The game's actors and rules.

pub mod desire;
pub mod pop;
pub mod pop_property;
pub mod process;
pub mod religion;
pub mod sentiment;
pub mod species;
pub mod state;
pub mod util;
pub mod workforce;
