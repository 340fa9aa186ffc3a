//! Open-loop load generation: a rate-paced request schedule, latency measured
//! against each request's scheduled send time, and a quantile sketch of the
//! results.
pub mod aggregate;
pub mod config;
pub mod latency;
pub mod pacer;
pub mod report;
pub mod sketch;
