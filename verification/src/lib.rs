//! Adaptive concurrency benchmark driver: sampling, aggregation and the
//! search for the worker count with the highest throughput.

pub mod prometheus;
pub mod results;
pub mod sampler;
pub mod search;
pub mod worker;
