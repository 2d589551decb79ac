[package]
name = "p2p"
version = "0.1.0"
edition = "2021"
publish = false

[dependencies]
mio = "=0.6.23"
bincode = "=1.3.3"
serde = { version = "=1.0.229", features = ["derive"] }
log = "=0.4.34"
quick-error = "=1.2.3"

[dev-dependencies]
net2 = "=0.2.39"
