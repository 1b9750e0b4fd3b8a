[package]
name = "yaoi"
version = "0.1.0"
edition = "2021"
publish = false

[dependencies]
blueprint = "=0.1.0"
capacity = "=0.1.2"
hashbrown = "=0.15.5"
hugepage = "=0.1.0"
io-uring = "=0.7.15"
io-uring-bearer = { version = "=0.2.0-pre4", features = ["connect", "socket"] }
io-uring-bufring = "=0.1.0"
io-uring-op-connect = "=0.0.2"
io-uring-op-socket = "=0.0.2"
io-uring-opcode = "=0.2.0-pre4"
io-uring-opcode-sets = "=0.0.2"
io-uring-owner = "=0.2.0-pre1"
libc = "=0.2.191"
nohash-hasher = "=0.2.0"
thingbuf = { version = "=0.1.6", features = ["static"] }
ysockaddr = "=0.2.0"
