[package]
name = "climber"
version = "0.1.0"
edition = "2021"
publish = false

[dependencies]
bme280-rs = { version = "=0.4.1", features = ["async"] }
critical-section = "=1.2.0"
embassy-executor = "=0.9.1"
embassy-stm32 = { version = "=0.6.0", features = ["stm32f446re", "time-driver-any", "memory-x"] }
embassy-sync = "=0.8.0"
embassy-time = "=0.5.1"
embedded-hal-async = "=1.0.0"
heapless = "=0.9.3"
log = "=0.4.35"
micromath = "=2.1.0"
mpu6050-async = "=0.1.1"
panic-probe = "=1.0.0"
rtt-target = "=0.6.2"
static_cell = "=2.1.1"
