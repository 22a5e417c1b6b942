//! The verified core of a robot's sensor interface.
//!
//! A robot offers its sensors over HTTP and UDP. This crate decides what is offered:
//! what a sensor says of itself, which routes exist, what each of them answers, what
//! the OpenAPI document and the protocol description hold, and when a command stream
//! sends. Sockets, timers and serialisation belong to the program around it.

pub mod apidoc;
pub mod driver;
pub mod drivers;
pub mod http;
pub mod json;
pub mod packet;
pub mod registry;
pub mod text;
pub mod udp;
