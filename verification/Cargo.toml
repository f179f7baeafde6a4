[package]
name = "netplay"
version = "0.1.0"
edition = "2021"
publish = false

[dependencies]
rapier2d = "*"
rand = "*"
renet = "*"
renet_netcode = "*"
bincode = { version = "*", features = ["derive"] }
uuid = { version = "*", features = ["v7"] }
hex = "*"
