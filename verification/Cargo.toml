[package]
name = "cts2_obc"
version = "0.1.0"
edition = "2021"
publish = false

[dependencies]
cortex-m = "0.7.10"
cortex-m-rt = "0.7.7"
rtt-target = "0.6.2"
serde = { version = "1.0.229", default-features = false, features = ["derive"] }
serde-json-core = "0.7.0"
static_cell = "2.1.1"
stm32l4xx-hal = { version = "0.7.1", features = ["stm32l476", "rt"] }
