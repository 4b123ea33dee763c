[package]
name = "easy_gnome"
version = "0.1.0"
edition = "2021"
publish = false

[dependencies]
base64 = "0.13"
image = "0.24"
zbus = "3"
zvariant = "3"
tokio = { version = "1", features = ["macros", "rt-multi-thread"] }
gio = "0.18"
gtk = "0.18"
