[package]
name = "swr_survival"
version = "0.1.0"
edition = "2021"
publish = false

[dependencies]
encoding_rs = "0.8"
regex = "1"
winapi = { version = "0.3", features = ["minwindef", "ntdef", "basetsd", "winnt", "debugapi", "memoryapi", "processthreadsapi", "d3d9", "d3d9types"] }
