[package]
name = "nft_events"
version = "0.1.0"
edition = "2021"
publish = false

[dependencies]
rusqlite = { version = "*", features = ["bundled"] }
tokio = { version = "*", features = ["macros", "rt-multi-thread", "time"] }
web3 = { version = "*", default-features = false, features = ["http"] }
