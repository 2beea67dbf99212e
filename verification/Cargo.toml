[package]
name = "motion_analysis"
version = "0.1.0"
edition = "2021"
publish = false

[dependencies]
const_format = "=0.2.37"
embassy-executor = { version = "=0.5.1", features = ["task-arena-size-12288"] }
embassy-net = { version = "=0.4.0", features = ["tcp", "dhcpv4", "proto-ipv4", "medium-ethernet"] }
embassy-time = "=0.3.2"
esp-alloc = "=0.4.0"
esp-backtrace = { version = "=0.13.0", features = ["esp32c3", "panic-handler", "exception-handler", "println"] }
esp-hal = { version = "=0.19.0", features = ["esp32c3", "async"] }
esp-hal-embassy = { version = "=0.2.0", features = ["esp32c3"] }
esp-println = { version = "=0.10.0", features = ["esp32c3", "log"] }
esp-wifi = { version = "=0.7.1", features = ["esp32c3", "wifi", "embassy-net", "async"] }
icm20948-async = "=0.1.3"
imu-fusion = "=0.2.6"
log = "=0.4.34"
micromath = "=2.1.0"
rust-mqtt = { version = "=0.3.1", default-features = false }
static_cell = { version = "=2.1.1", features = ["nightly"] }
