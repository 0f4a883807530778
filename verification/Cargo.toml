[package]
name = "host_identity"
version = "0.1.0"
edition = "2021"
publish = false

[dependencies]
url = "2"
winapi = { version = "0.3", features = ["handleapi", "minwindef", "processthreadsapi", "tlhelp32"] }
