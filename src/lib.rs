//! Coordination core for a fixed set of parallel workers: the plan model, the
//! ownership and capability registries, the message channel, the coordinator
//! state machine and the phase schedule that drives the workers.

pub mod types;
pub mod clock;
pub mod registry;
pub mod ownership;
pub mod coordination;
pub mod machine;
pub mod coordinator;
pub mod planner;
pub mod worker;
pub mod runner;
pub mod command;

