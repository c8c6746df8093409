[package]
name = "air_quality"
version = "0.1.0"
edition = "2021"
publish = false

[dependencies]
sha1 = "=0.10.7"
chrono = "=0.4.45"
ssh2 = "=0.9.6"
rpassword = "=7.5.4"
dirs = "=5.0.1"
flexi_logger = "=0.31.10"
structopt = "=0.3.26"
tui = "=0.19.0"
crossterm = "=0.25.0"
tempfile = "3"
wait-timeout = "0.2"
log = "0.4"
