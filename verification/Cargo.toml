[package]
name = "blackforge"
version = "0.1.0"
edition = "2021"
publish = false

[dependencies]
anyhow = "1"
base64 = "0.22"
chrono = "0.4"
constant_time_eq = "*"
dotenvy = "*"
gethostname = "*"
getrandom = "0.3"
image = { version = "*", default-features = false, features = ["png"] }
indicatif = "*"
log = "0.4"
serde_json = "1"
sysinfo = "*"
timeago = "*"
tiny_http = "*"
tokio = { version = "1", features = ["rt", "rt-multi-thread", "macros", "time", "sync", "process", "fs"] }
