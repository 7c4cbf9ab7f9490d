[package]
name = "vmm_core"
version = "0.1.0"
edition = "2021"
publish = false

[dependencies]
parking_lot = "0.12"
heck = "0.5"
zerocopy = "0.7"
igvm_defs = "0.3"
fs-err = "2"
anyhow = "1"
blocking = "1"

[dev-dependencies]
diff = "0.1"
