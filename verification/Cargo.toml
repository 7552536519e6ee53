[package]
name = "rvv_sim"
version = "0.1.0"
edition = "2021"
publish = false

[dependencies]
anyhow = "*"
chrono = "*"
clap = { version = "*", features = ["derive"] }
goblin = "*"
log = "*"
riscv-isa = "*"
serde = { version = "*", features = ["derive"] }
simplelog = "*"
toml = "*"
