[package]
name = "activate_stylus_program"
version = "0.1.0"
edition = "2021"
publish = false

[dependencies]
clap = { version = "4", features = ["derive"] }
ethers = { version = "=2.0.14", default-features = false }
eyre = "=0.6.14"
hex = "=0.4.3"
serde_json = "=1.0.154"
tokio = { version = "=1.54.1", features = ["macros", "rt-multi-thread"] }
