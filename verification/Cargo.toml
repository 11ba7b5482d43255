[package]
name = "openshmem_benchmark"
version = "0.1.0"
edition = "2021"
publish = false

[dependencies]
clap = { version = "*", features = ["derive"] }
csv = "*"
ctrlc = "*"
libc = "*"
quanta = "*"
serde = { version = "*", features = ["derive"] }
serde_json = "*"
