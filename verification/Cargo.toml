[package]
name = "basic_cli"
version = "0.1.0"
edition = "2021"
publish = false

[dependencies]
bytes = "1"
command-group = "5"
crossterm = "0.28"
getrandom = "0.2"
http-body-util = "0.1"
hyper = { version = "1", features = ["client", "http1"] }
hyper-rustls = { version = "0.27", default-features = false, features = ["http1", "native-tokio", "ring", "tls12", "logging"] }
hyper-util = { version = "0.1", features = ["client-legacy", "http1", "tokio"] }
libc = "0.2"
libsqlite3-sys = { version = "*", features = ["bundled"] }
sys-locale = "0.3"
tokio = { version = "1", features = ["rt", "time"] }
