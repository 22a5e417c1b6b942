//! The sensors that come with the interface.

pub mod gps;
pub mod motor_controller;
