[package]
name = "bench_autocommit"
version = "0.1.0"
edition = "2021"
publish = false

[dependencies]
rand = { version = "0.8", features = ["small_rng"] }
chrono = "0.4"
clap = { version = "4", features = ["derive"] }
