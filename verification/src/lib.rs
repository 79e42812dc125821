//! Verified core of a small task-tracking service with password login,
//! e-mailed second-factor codes, signed access tokens and a per-user
//! cache of task listings.

pub mod auth;
pub mod cache;
pub mod handlers;
pub mod ids;
pub mod models;
pub mod status;
pub mod text;
pub mod time;
