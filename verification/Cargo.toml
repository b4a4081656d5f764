[package]
name = "vmm_config"
version = "0.1.0"
edition = "2021"
publish = false

[dependencies]
anyhow = "1"
async-trait = "0.1"
fs-err = "*"
serde = { version = "1", features = ["derive"] }
thiserror = "2"
toml_edit = { version = "*", features = ["serde"] }
tracing = "0.1"
