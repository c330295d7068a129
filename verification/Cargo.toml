[package]
name = "blackbox_log"
version = "0.1.0"
edition = "2021"
publish = false

[dependencies]
bitter = "*"
bitvec = "1"
hashbrown = "*"
memchr = "2"
time = { version = "0.3", features = ["parsing", "macros"] }
serde = { version = "1", features = ["derive"] }
thiserror = "*"
