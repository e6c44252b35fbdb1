//! The engine: its tasks, its state and the steps that it takes.

pub mod driver;
pub mod engine;
pub mod laws;
pub mod ledger;
pub mod model;
pub mod rules;
pub mod snapshot;
pub mod task;
