[package]
name = "x11lock"
version = "0.1.0"
edition = "2021"
publish = false

[dependencies]
anyhow = "1"
cairo-rs = { version = "*", features = ["png"] }
chrono = "0.4"
nix = { version = "*", features = ["signal", "user"] }
pam-client2 = "*"
pango = "*"
pangocairo = "*"
x11rb = { version = "0.13", features = ["randr"] }
zeroize = "1"
