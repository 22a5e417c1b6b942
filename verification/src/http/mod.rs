//! What the HTTP side of the interface serves.

pub mod fields;
pub mod openapi;
pub mod protocol;
pub mod responses;
pub mod routes;
