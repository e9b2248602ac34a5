[package]
name = "harmony_playground"
version = "0.1.0"
edition = "2021"
publish = false

[dependencies]
color-eyre = { version = "=0.6.5", default-features = false }
iced = { version = "=0.13.1", default-features = false, features = ["tiny-skia", "tokio"] }
iced_aw = { version = "0.12", default-features = false, features = ["number_input"] }
postcard = { version = "=1.1.3", default-features = false, features = ["alloc"] }
rfd = { version = "=0.15.4", default-features = false, features = ["xdg-portal", "tokio"] }
serde = { version = "=1.0.229", features = ["derive"] }
tokio = { version = "=1.54.1", features = ["fs"] }
