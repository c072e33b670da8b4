//! Aggregation of live chain metrics into one normalized snapshot per chain.
//!
//! The library decides; it never calls the network. [`engine::Cycle`] leads
//! one aggregation cycle for the layer-1 chains, [`estimator::Estimator`]
//! leads the throughput estimate of one chain, and [`l2::l2_response`]
//! answers the request for the layer-2 protocols. Each of them is handed
//! what an upstream call gave and tells what to do next.

pub mod engine;
pub mod error;
pub mod estimator;
pub mod explorer;
pub mod l2;
pub mod rfc3339;
pub mod snapshot;
pub mod text;
pub mod throughput;
