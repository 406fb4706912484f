//! Statistics, request classification and run bookkeeping for a concurrent
//! HTTP load generator.

pub mod accumulator;
pub mod config;
pub mod outcome;
pub mod report;
pub mod stats;
pub mod worker;
