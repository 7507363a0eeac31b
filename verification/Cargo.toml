[package]
name = "omegabot"
version = "0.1.0"
edition = "2021"
publish = false

[dependencies]
serde = { version = "1", features = ["derive"] }
bincode = "1"
once_cell = "1"
winapi = { version = "0.3", features = ["consoleapi", "wincon", "libloaderapi", "memoryapi", "processthreadsapi", "handleapi", "minwinbase", "minwindef", "winnt"] }
minhook-sys = "*"
