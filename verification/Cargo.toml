[package]
name = "zenoh_raft"
version = "0.1.0"
edition = "2021"
publish = false

[dependencies]
anyerror = "0.1"
bitcode = "0.6"
compio = { version = "*", default-features = false, features = ["runtime", "polling", "time"] }
crossfire = "3"
data-encoding = "2"
display-more = "*"
futures-util = { version = "0.3", default-features = false, features = ["std", "async-await-macro"] }
jiff = { version = "0.2", default-features = false, features = ["std", "tz-system"] }
log = "0.4"
rand = { version = "0.9", features = ["small_rng"] }
rapidhash = "*"
smallvec = "1"
sonic-rs = "*"
thiserror = "2"
zenoh = { version = "1", default-features = false }
