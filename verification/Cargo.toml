[package]
name = "oo_bindgen"
version = "0.1.0"
edition = "2021"
publish = false

[dependencies]
dnp3 = { version = "*", default-features = false }
tokio = { version = "1", features = ["rt", "rt-multi-thread"] }
log = "0.4"
