[package]
name = "crust_acceptor"
version = "0.1.0"
edition = "2021"
publish = false

[dependencies]
mio = { version = "1", features = ["os-poll", "net", "os-ext"] }
