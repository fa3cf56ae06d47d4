[package]
name = "terminal"
version = "0.1.0"
edition = "2021"
publish = false

[dependencies]
# The next two only hold the versions that alacritty_terminal 0.17.0 builds with.
alacritty_config = "=0.1.0"
alacritty_config_derive = "=0.2.0"
alacritty_terminal = "=0.17.0"
anyhow = "=1.0.104"
dirs = "=4.0.0"
futures = "=0.3.34"
libc = "=0.2.191"
thiserror = "=1.0.69"
