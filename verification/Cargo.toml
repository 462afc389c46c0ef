[package]
name = "ngc224"
version = "0.1.0"
edition = "2021"
publish = false

[dependencies]
backtrace = "0.3"
chrono = "0.4"
clap = "2"
fern = { version = "0.6", features = ["colored"] }
log = "0.4"
minifb = "0.19"
rustyline = "8"
signal-hook = "0.3"
