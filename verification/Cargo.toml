[package]
name = "weeks_core"
version = "0.1.0"
edition = "2021"
publish = false

[dependencies]
midstring = "*"
chrono = "0.4"
ptime = "0.1"
time = "0.1"
chinese-lunisolar-calendar = "*"
icu = "1"
cuid2 = "*"
diesel = { version = "2", features = ["sqlite"] }
libsqlite3-sys = { version = "*", features = ["bundled"] }
serde = { version = "*", features = ["derive"] }
toml = "*"
arc-swap = "*"
once_cell = "*"
directories = "*"
thiserror = "*"
notify-debouncer-mini = "*"
