[package]
name = "mail"
version = "0.1.0"
edition = "2021"
publish = false

[dependencies]
anyhow = "1"
dotenv = "0.15"
ecies = { version = "=0.2.14", default-features = false, features = ["pure"] }
ethers-contract = "=2.0.14"
ethers-core = "=2.0.14"
ethers-providers = { version = "=2.0.14", default-features = false, features = ["ws", "rustls"] }
lazy_static = "1"
reqwest = { version = "0.11", default-features = false, features = ["json", "multipart", "rustls-tls"] }
serde = { version = "1", features = ["derive"] }
tokio = { version = "1", features = ["macros", "rt-multi-thread"] }
