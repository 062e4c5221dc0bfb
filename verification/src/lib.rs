//! Task management service: accounts with two-step login, role-guarded task
//! administration and a per-user cache of assigned tasks.

pub mod text;
pub mod clock;
pub mod models;
pub mod errors;
pub mod cache;
pub mod middleware;
pub mod handlers;
pub mod services;
