[package]
name = "edgefirst-camera"
version = "0.1.0"
edition = "2021"
publish = false

[dependencies]
cdr = "=0.2.4"
clap = { version = "4", features = ["derive", "env"] }
console-subscriber = "*"
dma-buf = "*"
dma-heap = "*"
edgefirst-schemas = "1"
g2d-sys = "=1.0.1"
kanal = "=0.1.1"
libc = "*"
serde_json = "1"
tokio = { version = "1", features = ["rt", "rt-multi-thread", "macros", "time"] }
tracing = "0.1"
tracing-journald = "*"
tracing-log = "*"
tracing-subscriber = { version = "0.3", features = ["env-filter"] }
tracing-tracy = "*"
tracy-client = "*"
turbojpeg = "*"
unix-ts = "=1.0.0"
videostream = "*"
zenoh = { version = "1", default-features = false }
