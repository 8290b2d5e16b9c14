//! What holds of the operator as a whole.

pub mod again;
pub mod beginnings;
pub mod broker;
pub mod convergence;
pub mod course;
pub mod database;
pub mod hashing;
pub mod kept;
pub mod owning;
pub mod pieces;
pub mod serving;
pub mod sign_on;
pub mod steps;
pub mod surroundings;
pub mod views;
pub mod wiring;
