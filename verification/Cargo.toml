[package]
name = "salfa-gate"
version = "0.1.0"
edition = "2021"
publish = false

[dependencies]
embassy-executor = "=0.7.0"
embassy-net = { version = "=0.6.0", features = ["tcp", "udp", "dns", "dhcpv4", "dhcpv4-hostname", "medium-ethernet", "proto-ipv4"] }
embassy-time = "=0.4.0"
esp-alloc = "=0.6.0"
log = "=0.4.34"
reqwless = "=0.13.0"
static_cell = "=2.1.1"
toml-cfg = "=0.2.0"

[dev-dependencies]
embassy-executor = { version = "=0.7.0", features = ["arch-std", "executor-thread"] }
embassy-time = { version = "=0.4.0", features = ["std"] }
