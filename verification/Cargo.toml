[package]
name = "treebeard"
version = "0.1.0"
edition = "2021"
publish = false

[dependencies]
glob = "*"
similar = "*"
regex = "*"
lru = "*"
fxhash = "*"
clap = { version = "4", features = ["derive"] }
tokio = { version = "1", features = ["full"] }
crossterm = "*"
fuser = { version = "*", default-features = false }
libc = "*"
nix = { version = "*", features = ["signal", "process", "term"] }
xattr = "*"
fs2 = "*"
directories = "*"
serde = { version = "1", features = ["derive"] }
serde_json = "1"
toml = "*"
chrono = { version = "0.4", features = ["serde"] }
tracing = "*"
tracing-subscriber = { version = "*", features = ["env-filter"] }
parking_lot = "*"
thiserror = "*"

[dev-dependencies]
tempfile = "*"
