[package]
name = "libp2p"
version = "0.1.0"
edition = "2021"
publish = false

[dependencies]
async-trait = "=0.1.92"
bs58 = "=0.2.5"
byteorder = "=1.5.0"
bytes = "=0.4.12"
curve25519-dalek = "=1.2.6"
futures = "=0.1.31"
futures-util = { version = "=0.3.34", features = ["io"] }
log = "=0.4.35"
minicbor = { version = "=0.5.1", features = ["std", "derive"] }
parking_lot = "=0.7.1"
rand = "=0.6.5"
snow = "=0.5.2"
tokio-codec = "=0.1.2"
tokio-executor = "=0.1.10"
tokio-io = "=0.1.13"
tokio-timer = "=0.2.13"
unsigned-varint = { version = "=0.2.3", features = ["codec"] }
void = "=1.0.2"
yamux = "=0.2.2"
