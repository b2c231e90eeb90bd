[package]
name = "roki"
version = "0.1.0"
edition = "2021"
publish = false

[dependencies]
rmk = "*"
embassy-nrf = { version = "*", features = ["nrf52840", "time-driver-rtc1", "gpiote"] }
embassy-time = "*"
embassy-executor = "*"
nrf-sdc = "*"
nrf-mpsl = "*"
defmt = "*"
defmt-rtt = "*"
panic-probe = "*"
rand_chacha = { version = "*", default-features = false }
rand_core = "*"
static_cell = "*"
