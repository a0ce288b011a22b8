//! Core library of a habit-tracking backend.
//!
//! The heart of the crate is the offline-data synchronization engine in
//! [`sync`]: the push/pull protocol that reconciles a client's locally
//! generated snapshot (habits, check-ins, goals, goal-habit links, with
//! client-minted local identifiers) against the canonical per-user store.
//! The engine is verified: every push either applies completely or leaves
//! the store untouched, dependent records whose parent cannot be resolved
//! are skipped silently, and check-ins and goal-habit links are upserted
//! on their natural keys.

pub mod auth;
pub mod clock;
pub mod dates;
pub mod error;
pub mod ids;
pub mod models;
pub mod remap;
pub mod store;
pub mod sync;
pub mod views;
