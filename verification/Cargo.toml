[package]
name = "sqlite_connector"
version = "0.1.0"
edition = "2021"
publish = false

[dependencies]
rusqlite = { version = "*", features = ["bundled"] }
num_cpus = "*"
futures = "*"
