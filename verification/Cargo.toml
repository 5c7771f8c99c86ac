[package]
name = "hypr_xdisplay"
version = "0.1.0"
edition = "2021"
publish = false

[dependencies]
nix = { version = "*", features = ["signal"] }
tokio = { version = "1", features = ["rt-multi-thread", "process", "sync", "macros", "io-util", "time"] }
serde = { version = "1", features = ["derive"] }
serde_json = "1"
chrono = "0.4"
dirs = "*"
config = { version = "*", default-features = false, features = ["toml"] }
toml = "*"
