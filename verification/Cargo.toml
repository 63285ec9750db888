[package]
name = "protocol_host_lib"
version = "0.1.0"
edition = "2021"
publish = false

[dependencies]
byteorder = "=1.5.0"
hex = "=0.4.3"
smallvec = "=1.16.4"
serde = { version = "=1.0.229", features = ["derive"] }
serde_json = "=1.0.154"
log = "=0.4.34"
simple_logger = "=1.16.0"
clap = "=2.34.0"
zmq = "0.10"
