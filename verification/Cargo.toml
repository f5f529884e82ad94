[package]
name = "afdpoll"
version = "0.1.0"
edition = "2021"
publish = false

[dependencies]
lazy_static = "1"
miow = "0.3"
ntapi = "0.3"
widestring = "*"
winapi = { version = "0.3", features = ["handleapi", "ioapiset", "minwinbase", "minwindef", "ntdef", "ntstatus", "winbase", "winerror", "winnt", "winsock2", "ws2def", "impl-default"] }
