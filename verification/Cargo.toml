[package]
name = "gen_id_allocator"
version = "0.1.0"
edition = "2021"
publish = false

[dependencies]
nonmax = "=0.5.5"
static_assertions = "=1.1.0"
