[package]
name = "rustyline_async"
version = "0.1.0"
edition = "2021"
publish = false

[dependencies]
ansi-width = "=0.1.0"
bytes = "1"
crossterm = { version = "=0.29.0", features = ["event-stream"] }
futures = "=0.3.34"
futures-channel = "=0.3.34"
futures-util = "=0.3.34"
futures_codec = "=0.5.0"
termion = "=4.0.6"
thingbuf = "=0.1.6"
unicode-segmentation = "=1.13.3"
