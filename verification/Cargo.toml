[package]
name = "trading_calculator"
version = "0.1.0"
edition = "2021"
publish = false

[dependencies]
actix-cors = "0.7"
actix-files = "0.6"
actix-web = "4"
ethers = { version = "=2.0.14", default-features = false }
reqwest = { version = "=0.11.27", default-features = false, features = ["json", "rustls-tls"] }
serde = { version = "=1.0.229", features = ["derive"] }
solana-pubkey = { version = "=2.4.0", default-features = false }
tokio = { version = "=1.54.1", features = ["rt"] }
