[package]
name = "fatcat_cli"
version = "0.1.0"
edition = "2021"
publish = false

[dependencies]
regex = "1"
structopt = "0.3"
env_logger = "0.7"
log = "0.4"
atty = "0.2"
serde_json = "1"
toml = "0.5"
failure = "0.1"
exitfailure = "0.5"
lazy_static = "1"
tokio = "0.1"
hyper = "0.12"
swagger = "4"
