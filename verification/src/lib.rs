//! Task-execution front door of a distributed query engine.
//!
//! The library is the admission / deduplication / status-tracking protocol
//! that sits at the service's request boundary: a caller submits a unit of
//! work under a stable task key, the service admits it under a bounded
//! concurrency guard, a background runner executes it and publishes the
//! terminal outcome, and the caller polls the same key until the result is
//! ready. Everything that touches the network, the executor, or the planner
//! is an external collaborator: the functions here take those collaborators'
//! outcomes as plain values and decide what the service does with them.

pub mod data;
pub mod error;
pub mod flight_service;
pub mod framing;
pub mod guard;
pub mod laws;
pub mod registry;
pub mod results_cache;
