[package]
name = "known_folders"
version = "0.1.0"
edition = "2021"
publish = false

[dependencies]
winapi = { version = "0.3", features = ["guiddef", "winerror", "combaseapi", "knownfolders", "shlobj", "shtypes", "winbase", "winnt"] }
