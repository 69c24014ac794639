[package]
name = "eis"
version = "0.1.0"
edition = "2021"
publish = false

[dependencies]
anyhow = "1"
clap = { version = "4", features = ["derive"] }
ctrlc = "3"
git2 = { version = "0.18", default-features = false }
sysinfo = { version = "0.29", default-features = false }
tokio = { version = "1", features = ["macros", "rt-multi-thread", "time"] }
