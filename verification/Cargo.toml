[package]
name = "cosmic_monitor"
version = "0.1.0"
edition = "2021"
publish = false

[dependencies]
clap_lex = "0.7"
env_logger = "0.11"
humansize = "2"
itertools = "0.14"
libc = "0.2"
log = "0.4"
open = "5"
paste = "1"
regex = "1"
sysinfo = "*"
