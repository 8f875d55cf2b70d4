[package]
name = "oxidegb"
version = "0.1.0"
edition = "2021"
publish = false

[dependencies]
blip_buf = "0.1"
ciborium = "0.2"
clap = { version = "4", features = ["derive"] }
color-eyre = "0.6"
ringbuf = "0.3"
serde = { version = "1", features = ["derive"] }
serde-big-array = "0.5"
thiserror = "1"
