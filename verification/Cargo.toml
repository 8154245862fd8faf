[package]
name = "comtrya"
version = "0.1.0"
edition = "2021"
publish = false

[dependencies]
which = "*"
os_info = "*"
sha256 = { version = "*", default-features = false }
petgraph = "*"
normpath = "*"
serde = { version = "*", features = ["derive"] }
serde_yml = "*"
serde_json = "*"
anyhow = "*"
clap = { version = "*", features = ["derive"] }
clap_complete = "*"
tracing = "*"
tracing-subscriber = "*"
dirs-next = "*"
tera = { version = "*", default-features = false }
rhai = "*"
comfy-table = "*"
colored = "*"
strip-ansi-escapes = "*"
schemars = "*"
parking_lot = "*"
