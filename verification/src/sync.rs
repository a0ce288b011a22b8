//! The offline-data synchronization engine.

pub mod engine;
pub mod laws;
pub mod lemmas;
pub mod model;
pub mod wire;
