//! User identity and token issuance: registration, confirmation, password and
//! refresh grants, and current-user lookup over a credential store.

pub mod ids;
pub mod models;
pub mod password;
pub mod services;
pub mod text;
pub mod token;
pub mod web;
