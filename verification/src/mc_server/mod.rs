//! The Minecraft server that runs on the instance.
pub mod laws;
pub mod server;
