[package]
name = "mptcp"
version = "0.1.0"
edition = "2021"
publish = false

[dependencies]
async-std = "1"
async-trait = "0.1"
lazy_static = "1"
libc = "0.2"
semver = "1"
socket2 = { version = "0.5", features = ["all"] }
sysctl = "0.5"
sysinfo = { version = "0.30", default-features = false }
tokio = { version = "1", features = ["net", "rt"] }
