[package]
name = "word2ipa"
version = "0.1.0"
edition = "2021"
publish = false

[dependencies]
gettext-rs = { version = "=0.7.7", features = ["gettext-system"] }
relm4 = { version = "=0.9.1", features = ["libadwaita", "gnome_46"] }
serde = { version = "=1.0.229", features = ["derive"] }
serde_json = "=1.0.154"
