[package]
name = "xaskpass"
version = "0.1.0"
edition = "2021"
publish = false

[dependencies]
anyhow = "1"
cairo-rs = { version = "0.14", features = ["xcb"] }
clap = { version = "3.2", features = ["derive"] }
gethostname = "0.2"
hex = "=0.4.3"
libc = "0.2"
log = "0.4"
pango = "0.14"
pango-sys = "0.14"
pangocairo = "0.14"
rand = "=0.8.8"
secstr = "=0.5.1"
serde = { version = "1", features = ["derive"] }
stderrlog = "0.5"
thiserror = "1"
tokio = { version = "1", features = ["rt", "net", "time", "signal", "macros"] }
toml = "0.5"
x11rb = { version = "0.11", features = ["allow-unsafe-code", "present", "xkb", "render", "xfixes", "cursor", "resource_manager"] }
xdg = "2.4"
yeslogic-fontconfig-sys = "2.11.2"
zeroize = "=1.9.1"
