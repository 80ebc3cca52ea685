[package]
name = "rowflow"
version = "0.1.0"
edition = "2021"
publish = false

[dependencies]
arrow-arith = "=59.3.1"
arrow-array = "=59.3.1"
arrow-schema = "=59.3.1"
arrow-select = "=59.3.1"
async-flow = "=0.1.5"
darling = "=0.21.3"
datafusion-common = { version = "=55.2.0", default-features = false }
http = "=1.5.0"
hyper = { version = "=1.12.0", features = ["client", "http1"] }
hyper-util = { version = "=0.1.21", features = ["tokio"] }
proc-macro2 = "=1.0.107"
quote = "=1.0.47"
serde_json = "=1.0.154"
syn = { version = "=2.0.119", features = ["extra-traits", "full"] }
syn-match = "=0.3.1"
syn-path = "=2.1.0"
thiserror = "=2.0.21"
tokio = { version = "=1.54.1", features = ["macros", "net", "rt"] }
