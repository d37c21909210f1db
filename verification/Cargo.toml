[package]
name = "rfmon"
version = "0.1.0"
edition = "2021"
publish = false

[dependencies]
futures = "0.3"
rtnetlink = "*"
thiserror = "2"
tokio = { version = "1", features = ["rt", "rt-multi-thread", "macros", "time"] }
tracing = "0.1"
tracing-subscriber = { version = "0.3", features = ["env-filter"] }
wl-nl80211 = "*"
zbus = { version = "5", default-features = false, features = ["tokio"] }
