[package]
name = "agp_dataplane"
version = "0.1.0"
edition = "2021"
publish = false

[dependencies]
bit-vec = "0.8"
jsonwebtoken-aws-lc = "*"
url = "2"
rand = "0.9"
reqwest = { version = "0.12", default-features = false, features = ["json"] }
serde_json = "1"
serde = { version = "1", features = ["derive"] }
tokio = { version = "1", features = ["rt", "macros", "sync", "time"] }
thiserror = "2"
async-trait = "0.1"
