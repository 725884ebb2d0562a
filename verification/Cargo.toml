[package]
name = "axraw"
version = "0.1.0"
edition = "2021"
publish = false

[dependencies]
smoltcp = { version = "=0.12.0", default-features = false, features = ["alloc", "medium-ethernet", "medium-ip", "proto-ipv4", "proto-ipv6", "socket-icmp"] }
axerrno = "=0.2.2"
axpoll = "=0.1.2"
spin = "=0.9.9"
cfg-if = "=1.0.5"
axdriver_block = { version = "=0.2.0", features = ["ramdisk", "bcm2835-sdhci"] }
axdriver_net = { version = "=0.2.0", features = ["ixgbe"] }
axdriver_pci = "=0.2.0"
