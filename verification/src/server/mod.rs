//! Server-side world: components, world maps, chunk generation, tree
//! placement, the tick clock and the answers to client requests.

pub mod building_generator;
pub mod clock;
pub mod components;
pub mod generation;
pub mod network;
pub mod resources;
pub mod tick;
