[package]
name = "graphcast"
version = "0.1.0"
edition = "2021"
publish = false

[dependencies]
ethers-core = "*"
ethers-signers = "*"
chrono = "*"
prost = "*"
serde = { version = "*", features = ["derive"] }
serde_json = "*"
reqwest = { version = "*", default-features = false, features = ["json"] }
tokio = { version = "*", default-features = false, features = ["rt-multi-thread", "macros"] }
num-bigint = "*"
url = "*"
thiserror = "*"
anyhow = "*"
