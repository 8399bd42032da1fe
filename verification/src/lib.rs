//! Control of a Minecraft server that lives on an AWS EC2 instance.
pub mod aws;
pub mod ec2;
pub mod ec2_types;
pub mod mc_server;
pub mod routes;
pub mod text;
