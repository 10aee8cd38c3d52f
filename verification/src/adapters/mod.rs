//! What the adapters of the farm share with it: the shape in which cows
//! are kept.

pub mod database;
pub mod memory;
