[package]
name = "ipv6watch"
version = "0.1.0"
edition = "2021"
publish = false

[dependencies]
clap = { version = "*", features = ["derive"] }
futures = "*"
netlink-packet-core = "*"
netlink-packet-route = "*"
netlink-sys = "*"
rtnetlink = "*"
tokio = { version = "*", features = ["macros", "rt-multi-thread", "time"] }
