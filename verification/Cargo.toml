[package]
name = "timerset"
version = "0.1.0"
edition = "2021"
publish = false

[dependencies]
clap = { version = "=4.6.7", features = ["derive"] }
fern = { version = "=0.7.1", features = ["colored"] }
log = "=0.4.34"
ntapi = "=0.4.3"
time = { version = "=0.3.55", features = ["formatting"] }
winapi = { version = "=0.3.9", features = ["handleapi", "impl-default", "memoryapi", "minwindef", "ntdef", "ntstatus", "processthreadsapi", "securitybaseapi", "sysinfoapi", "synchapi", "winbase", "winnt"] }
winreg = "=0.56.0"
