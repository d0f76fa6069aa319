[package]
name = "fjall_storage"
version = "0.1.0"
edition = "2021"
publish = false

[dependencies]
async-trait = "=0.1.92"
# gluesql-core 0.16 does not compile against later 0.4 releases of bigdecimal.
bigdecimal = "=0.4.5"
bincode = "=1.3.3"
fjall = "=2.11.2"
futures = "=0.3.34"
gluesql-core = "=0.16.3"
self_cell = "=1.3.0"
serde = { version = "=1.0.229", features = ["derive"] }
