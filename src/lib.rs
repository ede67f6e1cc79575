//! Splitting a batch of HTTP GET requests across concurrent workers, and
//! keeping count of how many of them have completed.
pub mod partition;
pub mod progress;
pub mod config;
pub mod transport;
pub mod worker;
