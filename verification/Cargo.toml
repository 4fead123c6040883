[package]
name = "dyn_utils"
version = "0.1.0"
edition = "2021"
publish = false

[dependencies]
either = { version = "1", default-features = false }
elain = "0.3"
heck = "0.5"
proc-macro2 = "1"
quote = "1"
syn = { version = "2", features = ["full", "visit-mut"] }

[dev-dependencies]
futures = "0.3"
