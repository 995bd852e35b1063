[package]
name = "mre_sdk"
version = "0.1.0"
edition = "2021"
publish = false

[dependencies]
log = "=0.4.35"
embedded-graphics = "=0.8.2"
embedded-io = "=0.7.1"
embedded-io-async = "=0.7.0"
embedded-nal-async = "=0.9.0"
embedded-tls = { version = "=0.18.0", default-features = false }
der = "=0.8.0-rc.10"
der_derive = "=0.8.0-rc.6"
getrandom = { version = "=0.2.17", features = ["custom"] }
rand_chacha = { version = "=0.3.1", default-features = false }
rand_core = "=0.6.4"
reqwless = { version = "=0.14.0", default-features = false, features = ["embedded-tls"] }
serde = { version = "=1.0.229", default-features = false, features = ["alloc"] }
serde_json = { version = "=1.0.154", default-features = false, features = ["alloc"] }
sjlj2 = "=0.5.0"
