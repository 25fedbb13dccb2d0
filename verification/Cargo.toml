[package]
name = "edgedb_codegen"
version = "0.1.0"
edition = "2021"
publish = false

[dependencies]
heck = "=0.5.0"
check_keyword = "=0.4.1"
prettyplease = "=0.2.37"
syn = { version = "=2.0.119", features = ["full"] }
proc-macro2 = "=1.0.107"
quote = "=1.0.47"
edgedb-protocol = "=0.6.1"
edgedb-errors = "=0.4.2"
edgedb-tokio = { version = "=0.5.1", features = ["unstable"] }
tokio = { version = "=1.54.1", features = ["full"] }
anyhow = "=1.0.104"
log = "=0.4.35"
uuid = "=1.29.1"
thiserror = "=2.0.21"
gel-protocol = "=0.9.2"
bytes = "=1.12.1"

