//! Rules of a pop's trading.

pub mod orders;
