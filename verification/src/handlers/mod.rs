pub mod auth;
pub mod tasks;
pub mod seed;
pub mod dev;
