[package]
name = "entropy"
version = "0.1.0"
edition = "2021"
publish = false

[dependencies]
anchor-lang = { version = "=0.25.0", features = ["init-if-needed"] }
pyth-client = "=0.5.1"
bytemuck = "=1.25.2"
anyhow = "=1.0.104"
crossbeam = "=0.8.5"
dotenv = "=0.15.0"
env_logger = "=0.9.3"
log = "=0.4.35"
structopt = "=0.3.26"
rand = "=0.8.8"
