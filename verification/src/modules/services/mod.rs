pub mod docker;
pub mod nginx;
pub mod postgres;
pub mod redis;
