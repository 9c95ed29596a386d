[package]
name = "tsdl"
version = "0.1.0"
edition = "2021"
publish = false

[dependencies]
url = "*"
anyhow = "*"
clap = { version = "*", features = ["derive"] }
clap-verbosity-flag = "*"
serde = { version = "*", features = ["derive"] }
toml = "*"
tokio = { version = "*", features = ["full"] }
reqwest = { version = "*", default-features = false, features = ["rustls-tls"] }
async-compression = { version = "*", features = ["tokio", "gzip"] }
ignore = "*"
num_cpus = "*"
