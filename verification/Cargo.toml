[package]
name = "ubus_runtime"
version = "0.1.0"
edition = "2021"
publish = false

[dependencies]
ubus = "*"
mio = { version = "*", features = ["os-ext", "net"] }
lazy_static = "*"
container_of = "*"
