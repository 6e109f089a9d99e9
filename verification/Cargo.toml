[package]
name = "water_filter"
version = "0.1.0"
edition = "2021"
publish = false

[dependencies]
embassy-time = { version = "*", features = ["std"] }
embassy-executor = { version = "*", features = ["arch-std", "executor-thread"] }
embassy-net = { version = "*", features = ["tcp", "dhcpv4", "proto-ipv4", "medium-ethernet"] }
embassy-sync = "*"
embassy-rp = { version = "*", features = ["rp2040"] }
cyw43 = "*"
cyw43-pio = "*"
defmt = "*"
static_cell = "*"
