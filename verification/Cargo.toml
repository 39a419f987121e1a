[package]
name = "esp-csi-rs"
version = "0.1.0"
edition = "2021"
publish = false

[dependencies]
edge-dhcp = "=0.6.0"
edge-nal = "=0.5.0"
edge-nal-embassy = "=0.6.0"
embassy-executor = "=0.7.0"
embassy-futures = "=0.1.2"
embassy-net = { version = "=0.7.0", features = ["dhcpv4", "dns", "medium-ethernet", "proto-ipv4", "raw", "tcp", "udp"] }
embassy-sync = "=0.6.2"
embassy-time = { version = "=0.4.0", features = ["tick-hz-1_000_000"] }
enumset = "=1.1.15"
esp-println = { version = "=0.15.0", features = ["esp32c3"] }
esp-wifi = { version = "=0.15.1", features = ["csi", "esp32c3", "sniffer", "wifi"] }
heapless = "=0.8.0"
ieee80211 = { version = "=0.5.9", default-features = false }
smoltcp = { version = "=0.12.0", default-features = false, features = ["medium-ethernet", "proto-ipv4", "socket-raw", "socket-udp"] }
static_cell = "=2.1.1"
