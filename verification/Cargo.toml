[package]
name = "teamup_rooms"
version = "0.1.0"
edition = "2021"
publish = false

[dependencies]
chrono = "0.4"
serde = { version = "1", features = ["derive"] }
serde_json = "1"
yew = { version = "0.21", features = ["csr"] }
gloo-storage = "*"
gloo-console = "*"
gloo-net = "*"
