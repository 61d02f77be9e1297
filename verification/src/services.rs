//! The operations offered to calling layers.

pub mod event;
pub mod user;
