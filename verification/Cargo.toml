[package]
name = "taosdump"
version = "0.1.0"
edition = "2021"
publish = false

[dependencies]
avro-rs = "*"
bstr = "*"
clap = { version = "*", features = ["derive"] }
glob = "*"
libtaos = "*"
log = "*"
parquet = { version = "*", default-features = false }
pretty_env_logger = "*"
serde_json = "*"
tokio = { version = "*", features = ["macros", "rt-multi-thread"] }
