[package]
name = "xmz_mod_touch_test_tool"
version = "0.1.0"
edition = "2021"
publish = false

[dependencies]
gtk = "*"
rand = "0.4"
serde = { version = "1", features = ["derive"] }
sysfs_gpio = "*"
