[package]
name = "epd_display"
version = "0.1.0"
edition = "2021"
publish = false

[dependencies]
cortex-m-rt = "=0.7.7"
cyw43 = { version = "0.5", features = ["defmt"] }
cyw43-pio = { version = "0.8", features = ["defmt"] }
defmt = "=1.2.0"
defmt-rtt = "=1.3.1"
embassy-executor = { version = "=0.9.1", features = ["arch-std", "executor-thread", "defmt"] }
embassy-net = { version = "0.7", features = ["defmt", "tcp", "dhcpv4", "proto-ipv4", "medium-ethernet"] }
embassy-rp = { version = "0.8", features = ["defmt", "rp2040", "time-driver", "critical-section-impl"] }
embassy-sync = "0.7"
embassy-time = { version = "0.5", features = ["defmt"] }
embedded-graphics = "=0.8.2"
embedded-hal = "=1.0.0"
embedded-hal-async = "=1.0.0"
embedded-hal-bus = { version = "=0.3.0", features = ["async"] }
embedded-io-async = "0.6"
heapless = { version = "0.8", features = ["serde"] }
panic-probe = "=1.0.0"
serde = { version = "=1.0.229", default-features = false, features = ["derive"] }
serde-json-core = "0.6"
static_cell = "=2.1.1"
