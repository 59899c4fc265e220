[package]
name = "nv_getter"
version = "0.1.0"
edition = "2021"
publish = false

[dependencies]
chrono = { version = "0.4", features = ["serde"] }
dirs = "5"
encoding_rs = "0.8"
flexi_logger = "0.29"
http = "1"
human-panic = "*"
indicatif = "0.17"
log = "0.4"
md5 = "0.7"
mime = "0.3"
reqwest = { version = "0.12", default-features = false, features = ["blocking", "rustls-tls"] }
serde = { version = "1", features = ["derive"] }
serde_json = "1"
structopt = "0.3"
url = "2"
