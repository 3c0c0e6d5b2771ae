[package]
name = "bus_factor"
version = "0.1.0"
edition = "2021"
publish = false

[dependencies]
anyhow = "1"
dotenv = "0.15"
futures = "0.3"
reqwest = { version = "*", default-features = false, features = ["json"] }
serde = { version = "1", features = ["derive"] }
stopwatch = "*"
structopt = "0.3"
tokio = { version = "1", features = ["macros", "rt-multi-thread"] }
