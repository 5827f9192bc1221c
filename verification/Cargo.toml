[package]
name = "prover_support"
version = "0.1.0"
edition = "2021"

[dependencies]
serde_json = "1"
rand = "0.8"
rand_xorshift = "0.3"
chrono = "0.4"
dotenv = "0.15"
log = "0.4"
log4rs = "1"
procfs = "0.14"

[dev-dependencies]
rand_core = "0.6"
