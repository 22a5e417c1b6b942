//! What the UDP side of the interface decides.

pub mod stream;
