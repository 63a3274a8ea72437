[package]
name = "wand_control"
version = "0.1.0"
edition = "2021"
publish = false

[dependencies]
thingbuf = "=0.1.6"
shlex = "=1.3.0"
getargs = "=0.5.0"
humansize = "=2.1.3"
serde = { version = "=1.0.229", features = ["derive"] }
serde_json = "=1.0.154"
anyhow = "=1.0.104"
log = "=0.4.34"
parking_lot = "=0.12.5"
arrayvec = "=0.7.8"
esp-idf-svc = "=0.53.0"
esp-idf-hal = "=0.47.0"
esp-idf-sys = "=0.38.1"
embedded-svc = "=0.29.0"
esp32-nimble = "=0.13.0"
