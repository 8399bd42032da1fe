//! Virtual machines the server can run on.
pub mod ec2;
