[package]
name = "tunnelto_server"
version = "0.1.0"
edition = "2021"
publish = false

[dependencies]
tunnelto_lib = "=0.1.19"
serde_json = "=1.0.151"
warp = { version = "=0.4.3", features = ["websocket"] }
futures = "=0.3.34"
log = "=0.4.34"
