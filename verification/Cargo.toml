[package]
name = "vrm_panel"
version = "0.1.0"
edition = "2021"
publish = false

[dependencies]
embedded-hal = "=1.0.0"
embedded-graphics = "=0.8.2"
lexical-core = { version = "=1.0.6", default-features = false, features = ["write-floats"] }
bincode = { version = "=2.0.1", default-features = false, features = ["derive"] }
usb-device = "=0.3.2"
usbd-serial = "=0.2.2"
ssd1306 = "=0.10.0"
defmt = "=1.2.0"
defmt-rtt = "=1.3.1"
stm32f4xx-hal = { version = "=0.23.0", features = ["stm32f401", "usb_fs"] }
