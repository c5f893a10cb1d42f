[package]
name = "lighthouse_nym"
version = "0.1.0"
edition = "2021"
publish = false

[dependencies]
futures = "0.3"
libp2p = { version = "0.52", default-features = false, features = ["gossipsub", "macros", "relay", "tokio"] }
rand = "0.8"
serde = { version = "1", features = ["derive"] }
slog = "2"
tokio = { version = "1", features = ["rt", "time"] }
void = "1"
warp = { version = "0.3", default-features = false }
