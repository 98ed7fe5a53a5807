[package]
name = "gesticle"
version = "0.1.0"
edition = "2021"
publish = false

[dependencies]
clap = "*"
config = "*"
dbus = "*"
dbus-crossroads = "*"
dirs = "*"
input = "*"
libc = "*"
libxdo = "*"
libxdo-sys = "*"
log = "*"
nix = { version = "*", features = ["fs"] }
simplelog = "*"
udev = "*"
