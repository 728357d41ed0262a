[package]
name = "tokio_diesel"
version = "0.3.0"
edition = "2021"
publish = false

[dependencies]
async-trait = "=0.1.92"
diesel = { version = "=1.4.8", default-features = false, features = ["r2d2"] }
r2d2 = "=0.8.10"
tokio = { version = "=1.54.1", default-features = false, features = ["rt-multi-thread"] }

[dev-dependencies]
byteorder = "=1.5.0"
