//! Types shared between the client and the server.

pub mod buildings;
pub mod protocol;
pub mod resources;
pub mod types;
