[package]
name = "minecraft-aws"
version = "0.1.0"
edition = "2021"
publish = false

[dependencies]
async-trait = "*"
rocket = "*"
ron = "*"
rusoto_core = { version = "*", default-features = false, features = ["rustls"] }
rusoto_ec2 = { version = "*", default-features = false, features = ["rustls"] }
rusoto_s3 = { version = "*", default-features = false, features = ["rustls"] }
rusoto_sts = { version = "*", default-features = false, features = ["rustls"] }
serde = { version = "*", features = ["derive"] }
spin_sleep = "*"
ssh2 = "*"
tokio = { version = "*", features = ["rt-multi-thread", "macros", "io-util"] }
