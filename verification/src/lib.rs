//! Simulation kernel of a market-oriented strategy game: goods, processes,
//! pops and markets. The integer-valued rules of the kernel live here, each
//! with its contract.

pub mod item;
pub mod map;
pub mod game;
pub mod household;
pub mod offerresult;
pub mod pop;
pub mod process;
pub mod market;
