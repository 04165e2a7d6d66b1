[package]
name = "satschain_indexer"
version = "0.1.0"
edition = "2021"
publish = false

[dependencies]
actix-cors = "0.7"
actix-web = { version = "4", default-features = false }
chrono = { version = "0.4", default-features = false, features = ["std"] }
clickhouse = { version = "0.11", default-features = false }
dotenv = "0.15"
ethers = { version = "2", default-features = false, features = ["ws"] }
futures = "0.3"
log = "0.4"
serde = { version = "1", features = ["derive"] }
serde_json = "1"
simple_logger = { version = "4", default-features = false }
tokio = { version = "1", features = ["macros", "rt-multi-thread", "time"] }
