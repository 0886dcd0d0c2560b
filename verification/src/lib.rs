//! Control logic of a hill-climbing car: motor power commands, the
//! controllers that turn user commands and heading estimates into motor
//! power, the mapping of motor power onto PWM duty cycles, the IMU link
//! state machine and small parsing helpers.
pub mod demo;
pub mod health;
pub mod imu;
pub mod main_controller;
pub mod mobile_app_commands_mapping;
pub mod motor;
pub mod utils;
