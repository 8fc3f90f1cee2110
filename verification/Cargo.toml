[package]
name = "lillinput"
version = "0.1.0"
edition = "2021"
publish = false

[dependencies]
i3ipc = "*"
shlex = "*"
clap = { version = "*", features = ["derive"] }
clap-verbosity-flag = "*"
config = "*"
serde = { version = "*", features = ["derive"] }
simplelog = "*"
xdg = "*"
log = "*"
input = "*"
filedescriptor = "*"
libc = "*"
