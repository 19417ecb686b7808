//! Verified core of the Python bindings for the optopus combinatorial
//! optimization library: parameter validation, heuristic selection per
//! problem, run seeding and the construction of formula problems.

pub mod text;
pub mod seed;
pub mod stop_condition;
pub mod graph;
pub mod runner;
pub mod heuristic;
pub mod problem;
