[package]
name = "nocopush"
version = "0.1.0"
edition = "2021"
publish = false

[dependencies]
encoding_rs = "*"
uuid = { version = "*", features = ["v4"] }
url = "*"
reqwest = { version = "*", default-features = false, features = ["blocking", "json"] }
serde = { version = "*", features = ["derive"] }
clap = { version = "*", features = ["derive"] }
clap-verbosity-flag = "*"
colored = "*"
eyre = "*"
indicatif = { version = "*", features = ["rayon"] }
inquire = "*"
rayon = "*"
simple-log = "*"
stopwatch = "*"
