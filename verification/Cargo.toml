[package]
name = "storage_sled"
version = "0.1.0"
edition = "2021"
publish = false

[dependencies]
sled = "=0.34.7"
toml = "=1.1.7"
clap = { version = "=4.6.7", features = ["derive"] }
tokio = { version = "*", features = ["macros", "rt-multi-thread"] }
tonic = "0.12"
cita_cloud_proto = "=6.7.4"
log = "*"
log4rs = "*"
git-version = "*"
