[package]
name = "procctl"
version = "0.1.0"
edition = "2021"
publish = false

[dependencies]
sysinfo = { version = "0.17", default-features = false }
x11 = { version = "=2.21.0", features = ["xlib"] }
winapi = { version = "=0.3.9", features = ["minwindef", "windef", "winuser", "shellapi", "processthreadsapi"] }
gmod = { version = "=11.1.1", default-features = false }
