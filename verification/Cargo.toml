[package]
name = "omnifs-daemon"
version = "0.1.0"
edition = "2021"
publish = false

[dependencies]
anyhow = "1"
blake3 = "=1.8.7"
bollard = "=0.21.1"
bytes = "1"
futures-util = "0.3"
getrandom = "=0.3.4"
hex = "=0.4.3"
oci-client = { version = "=0.18.0", default-features = false, features = ["rustls-tls-no-provider"] }
postcard = { version = "=1.1.3", features = ["alloc"] }
prost = "*"
secrecy = "=0.10.3"
serde = { version = "1", features = ["derive"] }
serde_json = "1"
sha2 = "=0.10.9"
tar = "=0.4.46"
thiserror = "2"
time = { version = "=0.3.55", features = ["parsing", "formatting"] }
tokio = { version = "1", features = ["rt-multi-thread", "macros", "sync", "time", "fs", "io-util", "net", "signal", "process"] }
tokio-stream = { version = "0.1", features = ["sync"] }
tonic = "=0.14.9"
tower = { version = "0.5", features = ["limit", "util"] }
tracing = "0.1"
tracing-subscriber = { version = "0.3", features = ["env-filter"] }
zeroize = "1"
zstd = "=0.13.4"
