pub mod auth;
pub mod seed;
pub mod tasks;
