[package]
name = "minivmm"
version = "0.1.0"
edition = "2021"
publish = false

[dependencies]
goblin = "=0.10.7"
kvm-ioctls = "=0.25.1"
kvm-bindings = "=0.14.2"
libc = "=0.2.191"
log = { version = "=0.4.34", features = ["max_level_info"] }
fern = "=0.7.1"
humantime = "=2.4.0"
clap = { version = "=4.6.7", features = ["derive"] }
capstone = "=0.14.0"
thiserror = "=1.0.69"
displaydoc = "=0.2.7"
vm-memory = { version = "=0.18.0", features = ["backend-mmap"] }
