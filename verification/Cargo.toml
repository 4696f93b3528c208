[package]
name = "cooktop"
version = "0.1.0"
edition = "2021"
publish = false

[dependencies]
defmt = "=1.2.0"
embassy-executor = "=0.10.0"
embassy-futures = "=0.1.2"
embassy-sync = "=0.8.0"
embassy-time = { version = "=0.5.1", features = ["tick-hz-1_000_000"] }
embedded-can = "=0.4.1"
esp-bootloader-esp-idf = { version = "=0.6.0", features = ["esp32c6"] }
esp-hal = { version = "=1.2.2", features = ["defmt", "esp32c6", "unstable"] }
esp-rtos = { version = "=0.4.0", features = ["embassy", "esp32c6"] }
panic-rtt-target = { version = "*", features = ["defmt"] }
rtt-target = { version = "=0.6.2", features = ["defmt"] }
static_cell = "=2.1.1"
