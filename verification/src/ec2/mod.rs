//! EC2 instances found by their tag.
pub mod instance;
