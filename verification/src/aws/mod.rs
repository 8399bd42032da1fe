//! AWS side of the server: the EC2 instance that hosts it.
pub mod virtual_machine;
