[package]
name = "hab_sup"
version = "0.1.0"
edition = "2021"
publish = false

[dependencies]
clap = "2"
env_logger = "0.5"
futures = "0.1"
log = "0.4"
pbr = "1.0"
protobuf = "1"
tabwriter = "1.0"
tokio-core = "0.1"
url = "1"
