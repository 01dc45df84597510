[package]
name = "gb"
version = "0.1.0"
edition = "2021"
publish = false

[dependencies]
url = "2"
time = { version = "0.3", features = ["parsing", "formatting", "macros"] }
clap = { version = "4", features = ["derive", "env"] }
clap_complete = "4"
colored = "*"
dialoguer = "*"
open = "*"
reqwest = { version = "*", default-features = false, features = ["json", "blocking", "cookies", "rustls-tls"] }
serde = { version = "1", features = ["derive"] }
serde_json = "1"
toml = "*"
