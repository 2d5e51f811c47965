[package]
name = "runas"
version = "1.2.0"
edition = "2021"
publish = false

[dependencies]
which = "4"
winapi = { version = "0.3", features = ["combaseapi", "errhandlingapi", "handleapi", "minwindef", "objbase", "processthreadsapi", "shellapi", "synchapi", "winbase", "winerror", "winuser"] }
