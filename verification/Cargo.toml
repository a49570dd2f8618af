[package]
name = "lis2mdl_driver"
version = "0.1.0"
edition = "2021"
publish = false

[dependencies]
cortex-m = "=0.7.9"
cortex-m-rt = "=0.7.7"
defmt = "=1.1.1"
defmt-rtt = "=1.3.0"
panic-probe = "=1.0.0"
stm32f4xx-hal = { version = "=0.23.0", features = ["stm32f446"] }
