[package]
name = "workbook"
version = "0.1.0"
edition = "2021"
publish = false

[dependencies]
rand = "=0.8.8"
sqlite = "=0.30.5"
odbc = "=0.17.0"
odbc-safe = "=0.5.0"
fltk = "=1.5.23"
fltk-table = "=0.3.5"
winapi = { version = "0.3", features = ["commctrl", "handleapi", "libloaderapi", "minwindef", "processthreadsapi", "synchapi", "winbase", "windef", "wingdi", "winnt", "winuser"] }
widestring = "1"
