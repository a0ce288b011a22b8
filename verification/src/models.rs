//! Data models.

pub mod goal;
pub mod habit;
pub mod sharing;
pub mod user;
