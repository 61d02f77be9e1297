//! What the credential store holds.

pub mod user;
