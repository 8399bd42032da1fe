//! An EC2 instance found by its id, and the start/stop protocol around it.
pub mod instance;
pub mod power;
