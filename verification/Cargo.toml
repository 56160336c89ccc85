[package]
name = "simeis"
version = "0.1.0"
edition = "2021"
publish = false

[dependencies]
base64 = "=0.23.1"
urlencoding = "=2.1.3"
serde_json = "=1.0.154"
serde = { version = "=1.0.229", features = ["derive"] }
rand = "=0.10.3"
rand_distr = "=0.6.0"
log = "=0.4.35"
env_logger = "=0.11.11"
tokio = { version = "=1.54.1", features = ["sync", "rt", "rt-multi-thread", "macros", "time"] }
ntex = { version = "=3.12.3", features = ["tokio"] }
# ntex 3.12 accepts ntex-httparse releases that need a newer rustc than
# this toolchain; this line keeps the resolver on the 2.1 series.
ntex-httparse = "~2.1"
mea = "=0.6.7"
ureq = { version = "=3.5.1", default-features = false }
