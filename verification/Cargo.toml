[package]
name = "ear_native"
version = "0.1.0"
edition = "2021"
publish = false

[dependencies]
crc = "3"
bytes = "1"
serde = { version = "1", features = ["derive"] }
serde_json = "1"
directories = "6"
log = "0.4"
env_logger = { version = "0.11", default-features = false }
tokio = { version = "1", features = ["full"] }
futures = "0.3"
async-trait = "0.1"
iced = { version = "0.14", default-features = false, features = ["tiny-skia", "tokio", "image", "x11"] }
image = { version = "0.25", default-features = false, features = ["png"] }
bluer = { version = "0.17", features = ["rfcomm", "bluetoothd"] }
