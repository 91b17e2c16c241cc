[package]
name = "winter"
version = "0.1.0"
edition = "2021"
publish = false

[dependencies]
itertools = "0.13"
bincode = "1.3"
serde = { version = "1", features = ["derive"] }
thiserror = "1"
anyhow = "1"
clap = { version = "4", features = ["derive"] }
tokio = { version = "1", features = ["macros", "rt-multi-thread", "time"] }
futures = "0.3"
tracing = "0.1"
tracing-subscriber = { version = "0.3", features = ["env-filter"] }
winapi = { version = "0.3", features = ["winuser", "processthreadsapi", "synchapi", "sysinfoapi", "timeapi", "winbase", "winnt", "profileapi", "minwinbase", "handleapi", "memoryapi", "psapi", "tlhelp32", "jobapi2", "wow64apiset", "fileapi", "namedpipeapi", "libloaderapi", "winsock2", "winerror", "minwindef", "ntdef", "windef", "ntstatus"] }
ntapi = "0.4"
minhook = "*"
