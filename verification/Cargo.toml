[package]
name = "realtps_import"
version = "0.1.0"
edition = "2021"
publish = false

[dependencies]
anyhow = "=1.0.104"
async-trait = "=0.1.92"
env_logger = "=0.11.11"
ethers-core = "*"
ethers-providers = "*"
futures = "=0.3.34"
log = "=0.4.34"
serde = "=1.0.229"
serde_derive = "=1.0.229"
structopt = "=0.3.26"
tokio = { version = "*", features = ["rt-multi-thread", "macros", "time"] }
toml = "*"
