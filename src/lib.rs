//! Verified core of a small task-orchestration toolkit: an actor's state
//! machine, a counting concurrency gate, a metered and cancellable job
//! generator, task-group bookkeeping and outcome aggregation, together with a
//! few small simulations and helpers that ride along with them.
pub mod actor;
pub mod generator;
pub mod aggregate;
pub mod gate;
pub mod taskgroup;
pub mod kitchen;
pub mod descriptions;
pub mod typename;
pub mod editor;
pub mod grid;
pub mod retry;
