[package]
name = "signal_hook"
version = "0.1.0"
edition = "2021"
publish = false

[dependencies]
libc = "0.2"
lazy_static = "1"
arc-swap = "1"
tokio = { version = "1", features = ["net", "rt"] }
async-io = "2"
futures-lite = "2"
futures-core = "0.3"
futures = "0.1"
mio = "0.6"
mio-uds = "0.6"
tokio-reactor = "0.1"
winapi = { version = "0.3", features = ["consoleapi", "wincon", "minwindef", "fileapi", "winnt", "winsock2", "namedpipeapi"] }
