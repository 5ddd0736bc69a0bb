[package]
name = "presence_sync"
version = "0.1.0"
edition = "2021"
publish = false

[dependencies]
apple-music = "*"
daemonize = "*"
discord-rich-presence = "*"
env_logger = "*"
log = "*"
sysinfo = "*"
