[package]
name = "fastq_count"
version = "0.1.0"
edition = "2021"
publish = false

[dependencies]
chrono = "*"
clap = "*"
flate2 = "*"
serde = { version = "*", features = ["derive"] }
serde_json = "*"
