[package]
name = "gardena_bnw"
version = "0.1.0"
edition = "2021"
publish = false

[dependencies]
rand = "0.8"
hex = "0.4"
base64 = "0.22"
convert_case = "0.6"
quick-xml = { version = "0.23", features = ["serialize"] }
serde = { version = "1", features = ["derive"] }
serde_json = "1"
thiserror = "1"
anyhow = "1"
tokio = { version = "1", features = ["rt", "rt-multi-thread", "macros", "net", "io-util", "sync", "time"] }
futures-util = "0.3"
tracing = "0.1"
tracing-subscriber = { version = "0.3", features = ["env-filter", "fmt"] }
libc = "0.2"
log = "0.4"
async-trait = "0.1"
proc-macro2 = "1"
quote = "1"
