[package]
name = "chess5d_reader"
version = "0.1.0"
edition = "2021"
publish = false

[dependencies]
bytes = "1"
process-memory = "0.4"
winapi = { version = "0.3", features = ["tlhelp32", "processthreadsapi", "psapi", "winnt", "memoryapi", "minwindef", "basetsd", "ntdef"] }
lapp = "0.4"
log = "0.4"
log4rs = "1"
lazy_static = "1"
retry = "1"
