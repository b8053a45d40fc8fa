[package]
name = "vkfetch-rs"
version = "0.1.0"
edition = "2021"
publish = false

[dependencies]
ash = "0.38"
atty = "0.2"
winapi = { version = "0.3", features = ["consoleapi", "handleapi", "processenv", "winbase", "wincon"] }
